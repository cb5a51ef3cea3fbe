use crossbundle::permissions::{
    AndroidPermission, AndroidPermissionGroup, ApplePermission, Permissions,
};

#[test]
fn test_get_full_permission() {
    let permission = AndroidPermission::AccessCheckinProperties;
    assert_eq!(
        permission.get_full_permission(),
        "android.permission.ACCESS_CHECKIN_PROPERTIES"
    );
}

#[test]
fn android_permission_texts() {
    assert_eq!(AndroidPermission::AcceptHandover.to_string(), "ACCEPT_HANDOVER");
    assert_eq!(AndroidPermission::BattertStats.to_string(), "BATTERY_STATS");
    assert_eq!(AndroidPermission::WriteVoicemail.to_string(), "WRITE_VOICEMAIL");
    assert_eq!(
        AndroidPermission::WriteVoicemail.get_full_permission(),
        "android.permission.WRITE_VOICEMAIL"
    );
}

#[test]
fn full_permission_is_the_namespaced_permission() {
    assert_eq!(
        AndroidPermission::AccessFineLocation.get_full_permission(),
        Permissions::ACCESS_FINE_LOCATION.to_string()
    );
    assert_eq!(
        AndroidPermission::Vibrate.get_full_permission(),
        Permissions::VIBRATE.to_string()
    );
}

#[test]
fn permission_group_texts() {
    assert_eq!(
        AndroidPermissionGroup::ACTIVITY_RECOGNITION.to_string(),
        "android.permission-group.ACTIVITY_RECOGNITION"
    );
    assert_eq!(
        AndroidPermissionGroup::STORAGE.to_string(),
        "android.permission-group.STORAGE"
    );
}

#[test]
fn apple_permission_texts() {
    assert_eq!(
        ApplePermission::NSCameraUsageDescription.to_string(),
        "NSCameraUsageDescription"
    );
    assert_eq!(
        ApplePermission::NFCReaderUsageDescription.to_string(),
        "NFCReaderUsageDescription"
    );
    assert_eq!(
        ApplePermission::NSFaceIDUsageDescription.to_string(),
        "NSFaceIDUsageDescription"
    );
}

#[test]
fn namespaced_permission_texts() {
    assert_eq!(
        Permissions::ACCEPT_HANDOVER.to_string(),
        "android.permission.ACCEPT_HANDOVER"
    );
    assert_eq!(
        Permissions::WRITE_VOICEMAIL.to_string(),
        "android.permission.WRITE_VOICEMAIL"
    );
}
