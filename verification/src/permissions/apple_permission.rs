//! The usage descriptions that an Apple application can declare.
use vstd::prelude::*;

verus! {

/// A usage-description key of an application's property list.
#[derive(Debug, Clone, Copy, PartialEq, Eq, Structural)]
pub enum ApplePermission {
    /// Your app adds photos to the user's photo library.
    NSPhotoLibraryAddUsageDescription,
    /// Your app accesses the user's photo library.
    NSPhotoLibraryUsageDescription,
    /// Your app uses the device camera.
    NSCameraUsageDescription,
    /// Your app uses location services all the time.
    NSLocationAlwaysUsageDescription,
    /// Your app uses location services only when the app is running.
    NSLocationWhenInUseUsageDescription,
    /// DEPRECATED: Update to one of the above instead.
    NSLocationUsageDescription,
    /// Your app uses the address book.
    NSContactsUsageDescription,
    /// Your app uses or modifies the user's calendar information.
    NSCalendarsUsageDescription,
    /// Your app creates reminders in the Reminders app.
    NSRemindersUsageDescription,
    /// Your app uses data from the Health app.
    NSHealthShareUsageDescription,
    /// Your app provides health information to the Health app.
    NSHealthUpdateUsageDescription,
    /// Your app uses the NFC reader.
    NFCReaderUsageDescription,
    /// Your app works with Bluetooth devices.
    NSBluetoothPeripheralUsageDescription,
    /// Your app uses the device microphone.
    NSMicrophoneUsageDescription,
    /// Your app provides a SiriKit Intent.
    NSSiriUsageDescription,
    /// Your app uses speech recognition.
    NSSpeechRecognitionUsageDescription,
    /// Your app uses the device motion tracking hardware.
    NSMotionUsageDescription,
    /// (tvOS only) your app uses the video subscriber account.
    NSVideoSubscriberAccountUsageDescription,
    /// Your app uses Apple Music integration.
    NSAppleMusicUsageDescription,
    /// Your app uses FaceID.
    NSFaceIDUsageDescription,
}

impl ApplePermission {
    /// The key, as the property list spells it.
    pub open spec fn name(self) -> Seq<char> {
        match self {
            ApplePermission::NSPhotoLibraryAddUsageDescription => "NSPhotoLibraryAddUsageDescription"@,
            ApplePermission::NSPhotoLibraryUsageDescription => "NSPhotoLibraryUsageDescription"@,
            ApplePermission::NSCameraUsageDescription => "NSCameraUsageDescription"@,
            ApplePermission::NSLocationAlwaysUsageDescription => "NSLocationAlwaysUsageDescription"@,
            ApplePermission::NSLocationWhenInUseUsageDescription => "NSLocationWhenInUseUsageDescription"@,
            ApplePermission::NSLocationUsageDescription => "NSLocationUsageDescription"@,
            ApplePermission::NSContactsUsageDescription => "NSContactsUsageDescription"@,
            ApplePermission::NSCalendarsUsageDescription => "NSCalendarsUsageDescription"@,
            ApplePermission::NSRemindersUsageDescription => "NSRemindersUsageDescription"@,
            ApplePermission::NSHealthShareUsageDescription => "NSHealthShareUsageDescription"@,
            ApplePermission::NSHealthUpdateUsageDescription => "NSHealthUpdateUsageDescription"@,
            ApplePermission::NFCReaderUsageDescription => "NFCReaderUsageDescription"@,
            ApplePermission::NSBluetoothPeripheralUsageDescription => "NSBluetoothPeripheralUsageDescription"@,
            ApplePermission::NSMicrophoneUsageDescription => "NSMicrophoneUsageDescription"@,
            ApplePermission::NSSiriUsageDescription => "NSSiriUsageDescription"@,
            ApplePermission::NSSpeechRecognitionUsageDescription => "NSSpeechRecognitionUsageDescription"@,
            ApplePermission::NSMotionUsageDescription => "NSMotionUsageDescription"@,
            ApplePermission::NSVideoSubscriberAccountUsageDescription => "NSVideoSubscriberAccountUsageDescription"@,
            ApplePermission::NSAppleMusicUsageDescription => "NSAppleMusicUsageDescription"@,
            ApplePermission::NSFaceIDUsageDescription => "NSFaceIDUsageDescription"@,
        }
    }

    /// The text that the platform knows the value by.
    pub fn as_str(&self) -> (s: &'static str)
        ensures
            s@ == self.name(),
    {
        match self {
            ApplePermission::NSPhotoLibraryAddUsageDescription => "NSPhotoLibraryAddUsageDescription",
            ApplePermission::NSPhotoLibraryUsageDescription => "NSPhotoLibraryUsageDescription",
            ApplePermission::NSCameraUsageDescription => "NSCameraUsageDescription",
            ApplePermission::NSLocationAlwaysUsageDescription => "NSLocationAlwaysUsageDescription",
            ApplePermission::NSLocationWhenInUseUsageDescription => "NSLocationWhenInUseUsageDescription",
            ApplePermission::NSLocationUsageDescription => "NSLocationUsageDescription",
            ApplePermission::NSContactsUsageDescription => "NSContactsUsageDescription",
            ApplePermission::NSCalendarsUsageDescription => "NSCalendarsUsageDescription",
            ApplePermission::NSRemindersUsageDescription => "NSRemindersUsageDescription",
            ApplePermission::NSHealthShareUsageDescription => "NSHealthShareUsageDescription",
            ApplePermission::NSHealthUpdateUsageDescription => "NSHealthUpdateUsageDescription",
            ApplePermission::NFCReaderUsageDescription => "NFCReaderUsageDescription",
            ApplePermission::NSBluetoothPeripheralUsageDescription => "NSBluetoothPeripheralUsageDescription",
            ApplePermission::NSMicrophoneUsageDescription => "NSMicrophoneUsageDescription",
            ApplePermission::NSSiriUsageDescription => "NSSiriUsageDescription",
            ApplePermission::NSSpeechRecognitionUsageDescription => "NSSpeechRecognitionUsageDescription",
            ApplePermission::NSMotionUsageDescription => "NSMotionUsageDescription",
            ApplePermission::NSVideoSubscriberAccountUsageDescription => "NSVideoSubscriberAccountUsageDescription",
            ApplePermission::NSAppleMusicUsageDescription => "NSAppleMusicUsageDescription",
            ApplePermission::NSFaceIDUsageDescription => "NSFaceIDUsageDescription",
        }
    }

    /// The text that the platform knows the value by, as an owned string.
    pub fn to_string(&self) -> (s: String)
        ensures
            s@ == self.name(),
    {
        self.as_str().to_owned()
    }

    /// Different keys are spelled differently.
    pub proof fn lemma_name_is_injective(self, other: ApplePermission)
        requires
            self.name() == other.name(),
        ensures
            self == other,
    {
        reveal_strlit("NSPhotoLibraryAddUsageDescription");
        reveal_strlit("NSPhotoLibraryUsageDescription");
        reveal_strlit("NSCameraUsageDescription");
        reveal_strlit("NSLocationAlwaysUsageDescription");
        reveal_strlit("NSLocationWhenInUseUsageDescription");
        reveal_strlit("NSLocationUsageDescription");
        reveal_strlit("NSContactsUsageDescription");
        reveal_strlit("NSCalendarsUsageDescription");
        reveal_strlit("NSRemindersUsageDescription");
        reveal_strlit("NSHealthShareUsageDescription");
        reveal_strlit("NSHealthUpdateUsageDescription");
        reveal_strlit("NFCReaderUsageDescription");
        reveal_strlit("NSBluetoothPeripheralUsageDescription");
        reveal_strlit("NSMicrophoneUsageDescription");
        reveal_strlit("NSSiriUsageDescription");
        reveal_strlit("NSSpeechRecognitionUsageDescription");
        reveal_strlit("NSMotionUsageDescription");
        reveal_strlit("NSVideoSubscriberAccountUsageDescription");
        reveal_strlit("NSAppleMusicUsageDescription");
        reveal_strlit("NSFaceIDUsageDescription");
        let mine = self.name();
        let theirs = other.name();
        assert(mine.len() == theirs.len());
        assert(mine[2] == theirs[2]);
    }
}

} // verus!
