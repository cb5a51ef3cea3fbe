#![allow(non_camel_case_types)]
//! The groups that Android sorts its permissions into.
use vstd::prelude::*;

verus! {

/// A permission group of the Android platform.
#[derive(Debug, Clone, Copy, PartialEq, Eq, Structural)]
pub enum AndroidPermissionGroup {
    /// Used for permissions that are associated with activity recognition
    ACTIVITY_RECOGNITION,
    /// Used for runtime permissions related to user's calendar
    CALENDAR,
    /// Used for permissions that are associated telephony features
    CALL_LOG,
    /// Used for permissions that are associated with accessing camera or
    /// capturing images/video from the device
    CAMERA,
    /// Used for runtime permissions related to contacts and profiles on this
    /// device
    CONTACTS,
    /// Used for permissions that allow accessing the device location
    LOCATION,
    /// Used for permissions that are associated with accessing microphone audio
    /// from the device
    MICROPHONE,
    /// Required to be able to discover and connect to nearby Bluetooth devices
    NEARBY_DEVICES,
    /// Used for permissions that are associated telephony features
    PHONE,
    /// Used for permissions that are associated with accessing body or
    /// environmental sensors
    SENSORS,
    /// Used for runtime permissions related to user's SMS messages
    SMS,
    /// Used for runtime permissions related to the shared external storage
    STORAGE,
}

impl AndroidPermissionGroup {
    /// The group's full name.
    pub open spec fn name(self) -> Seq<char> {
        match self {
            AndroidPermissionGroup::ACTIVITY_RECOGNITION => "android.permission-group.ACTIVITY_RECOGNITION"@,
            AndroidPermissionGroup::CALENDAR => "android.permission-group.CALENDAR"@,
            AndroidPermissionGroup::CALL_LOG => "android.permission-group.CALL_LOG"@,
            AndroidPermissionGroup::CAMERA => "android.permission-group.CAMERA"@,
            AndroidPermissionGroup::CONTACTS => "android.permission-group.CONTACTS"@,
            AndroidPermissionGroup::LOCATION => "android.permission-group.LOCATION"@,
            AndroidPermissionGroup::MICROPHONE => "android.permission-group.MICROPHONE"@,
            AndroidPermissionGroup::NEARBY_DEVICES => "android.permission-group.NEARBY_DEVICES"@,
            AndroidPermissionGroup::PHONE => "android.permission-group.PHONE"@,
            AndroidPermissionGroup::SENSORS => "android.permission-group.SENSORS"@,
            AndroidPermissionGroup::SMS => "android.permission-group.SMS"@,
            AndroidPermissionGroup::STORAGE => "android.permission-group.STORAGE"@,
        }
    }

    /// The text that the platform knows the value by.
    pub fn as_str(&self) -> (s: &'static str)
        ensures
            s@ == self.name(),
    {
        match self {
            AndroidPermissionGroup::ACTIVITY_RECOGNITION => "android.permission-group.ACTIVITY_RECOGNITION",
            AndroidPermissionGroup::CALENDAR => "android.permission-group.CALENDAR",
            AndroidPermissionGroup::CALL_LOG => "android.permission-group.CALL_LOG",
            AndroidPermissionGroup::CAMERA => "android.permission-group.CAMERA",
            AndroidPermissionGroup::CONTACTS => "android.permission-group.CONTACTS",
            AndroidPermissionGroup::LOCATION => "android.permission-group.LOCATION",
            AndroidPermissionGroup::MICROPHONE => "android.permission-group.MICROPHONE",
            AndroidPermissionGroup::NEARBY_DEVICES => "android.permission-group.NEARBY_DEVICES",
            AndroidPermissionGroup::PHONE => "android.permission-group.PHONE",
            AndroidPermissionGroup::SENSORS => "android.permission-group.SENSORS",
            AndroidPermissionGroup::SMS => "android.permission-group.SMS",
            AndroidPermissionGroup::STORAGE => "android.permission-group.STORAGE",
        }
    }

    /// The text that the platform knows the value by, as an owned string.
    pub fn to_string(&self) -> (s: String)
        ensures
            s@ == self.name(),
    {
        self.as_str().to_owned()
    }

    /// Different groups have different names.
    pub proof fn lemma_name_is_injective(self, other: AndroidPermissionGroup)
        requires
            self.name() == other.name(),
        ensures
            self == other,
    {
        reveal_strlit("android.permission-group.ACTIVITY_RECOGNITION");
        reveal_strlit("android.permission-group.CALENDAR");
        reveal_strlit("android.permission-group.CALL_LOG");
        reveal_strlit("android.permission-group.CAMERA");
        reveal_strlit("android.permission-group.CONTACTS");
        reveal_strlit("android.permission-group.LOCATION");
        reveal_strlit("android.permission-group.MICROPHONE");
        reveal_strlit("android.permission-group.NEARBY_DEVICES");
        reveal_strlit("android.permission-group.PHONE");
        reveal_strlit("android.permission-group.SENSORS");
        reveal_strlit("android.permission-group.SMS");
        reveal_strlit("android.permission-group.STORAGE");
        let mine = self.name();
        let theirs = other.name();
        assert(mine.len() == theirs.len());
        assert(mine[28] == theirs[28]);
    }
}

} // verus!
