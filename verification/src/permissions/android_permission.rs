//! The permissions that an Android application can declare.
use vstd::prelude::*;
use crate::text::concat2;

verus! {

/// A permission of the Android platform.
#[derive(Debug, Clone, Copy, PartialEq, Eq, Structural)]
pub enum AndroidPermission {
    /// Allows a calling app to continue a call which was started in another app.
    ///
    /// Protection level: dangerous
    AcceptHandover,
    /// Allows an app to access location in the background.
    ///
    /// Protection level: dangerous
    AccessBackgroundLocation,
    /// Allows an application to access data blobs across users.
    AccessBlobsAcrossUsers,
    /// Allows read/write access to the "properties" table in the checkin database,
    /// to change values that get uploaded.
    ///
    /// Not for use by third-party applications.
    AccessCheckinProperties,
    /// Allows an app to access approximate location.
    ///
    /// Protection level: dangerous
    AccessCoarseLocation,
    /// Allows an app to access precise location.
    ///
    /// Protection level: dangerous
    AccessFineLocation,
    /// Allows an application to access extra location provider commands.
    ///
    /// Protection level: normal
    AccessLocationExtraCommands,
    /// Allows an application to access any geographic locations persisted in the
    /// user's shared collection.
    ///
    /// Protection level: dangerous
    AccessMediaLocation,
    /// Allows applications to access information about networks.
    ///
    /// Protection level: normal
    AccessNetworkState,
    /// Marker permission for applications that wish to access notification policy.
    ///
    /// Protection level: normal
    AccessNotificationPolicy,
    /// Allows applications to access information about Wi-Fi networks.
    ///
    /// Protection level: normal
    AccessWifiState,
    /// Allows applications to call into AccountAuthenticators.
    /// Not for use by third-party applications.
    AccountManager,
    /// Allows an application to recognize physical activity.
    ///
    /// Protection level: dangerous
    ActivityRecognition,
    /// Allows an application to add voicemails into the system.
    ///
    /// Protection level: dangerous
    AddVoicemail,
    /// Allows the app to answer an incoming phone call.
    ///
    /// Protection level: dangerous
    AnswerPhoneCalls,
    /// Allows an application to collect battery statistics.
    ///
    /// Protection level: signature|privileged|development
    BattertStats,
    /// Must be required by an [`AccessibilityService`], to ensure that only the
    /// system can bind to it.
    ///
    /// Protection level: signature
    ///
    /// [AccessibilityService]::(https://developer.android.com/reference/android/accessibilityservice/AccessibilityService)
    BindAccessibilityService,
    /// Allows an application to tell the AppWidget service which application can
    /// access AppWidget's data. The normal user flow is that a user picks an
    /// AppWidget to go into a particular host, thereby giving that host
    /// application access to the private data from the AppWidget app. An
    /// application that has this permission should honor that contract.
    ///
    /// Not for use by third-party applications.
    BindAppwidget,
    /// Must be required by a [`AutofillService`], to ensure that only the system
    /// can bind to it.
    ///
    /// Protection level: signature
    ///
    /// [AutofillService]::(https://developer.android.com/reference/android/service/autofill/AutofillService)
    BindAutofillService,
    /// Must be required by a [`CallRedirectionService`], to ensure that only the
    /// system can bind to it.
    ///
    /// Protection level: signature|privileged
    ///
    /// [CallRedirectionService]::(https://developer.android.com/reference/android/telecom/CallRedirectionService)
    BindCallRedirectionService,
    /// A subclass of [`CarrierMessagingClientService`] must be protected with
    /// this permission.
    ///
    /// Protection level: signature
    ///
    /// [CarrierMessagingClientService]::(https://developer.android.com/reference/android/service/carrier/CarrierMessagingClientService)
    BindCarrierMessagingClientService,
    /// This constant was deprecated in API level 23. Use [`BIND_CARRIER_SERVICES`]
    /// instead
    ///
    /// [BIND_CARRIER_SERVICES]::(https://developer.android.com/reference/android/Manifest.permission#BIND_CARRIER_SERVICES)
    BindCarrierMessagingService,
    /// The system process that is allowed to bind to services in carrier apps
    /// will have this permission
    BindCarrierServices,
    /// This constant was deprecated in API level 30. For publishing direct share
    /// targets, please follow the instructions in
    /// https://developer.android.com/training/sharing/receive.html#providing-direct-share-targets instead
    BindChooserTargetService,
    /// Must be required by any [`CompanionDeviceServices`] to ensure that only the
    /// system can bind to it
    ///
    /// [CompanionDeviceServices]::(https://developer.android.com/reference/android/companion/CompanionDeviceService)
    BindCompanionDeviceService,
    /// Must be required by a [`ConditionProviderService`], to ensure that only the
    /// system can bind to it
    ///
    /// [ConditionProviderService]::(https://developer.android.com/reference/android/service/notification/ConditionProviderServic)
    BindConditionProviderService,
    /// Allows SystemUI to request third party controls
    BindControls,
    /// Must be required by device administration receiver, to ensure that only the
    /// system can interact with it
    BindDeviceAdmin,
    /// Must be required by an [`DreamService`], to ensure that only the system can
    /// bind to it.
    ///
    /// [DreamService]::(https://developer.android.com/reference/android/service/dreams/DreamService)
    BindDreamService,
    /// Must be required by a [`InCallService`], to ensure that only the system can
    /// bind to it.
    ///
    /// [InCallService]::(https://developer.android.com/reference/android/telecom/InCallService)
    BindIncallService,
    /// Must be required by an [`InputMethodService`], to ensure that only the system
    /// can bind to it.
    ///
    /// [InputMethodService]::(https://developer.android.com/reference/android/inputmethodservice/InputMethodService)
    BindInputMethod,
    /// Must be required by an [`MidiDeviceService`], to ensure that only the system
    /// can bind to it.
    ///
    /// [MidiDeviceService]::(https://developer.android.com/reference/android/media/midi/MidiDeviceService)
    BindMidiDeviceService,
    /// Must be required by a [`HostApduService`] or [`OffHostApduService`] to ensure
    /// that only the system can bind to it.
    ///
    /// [HostApduService]::(https://developer.android.com/reference/android/nfc/cardemulation/HostApduService)
    /// [OffHostApduService]::(https://developer.android.com/reference/android/nfc/cardemulation/OffHostApduService)
    BindNfcService,
    /// Must be required by an [`NotificationListenerService`], to ensure that only
    /// the system can bind to it.
    ///
    /// [NotificationListenerService]::(https://developer.android.com/reference/android/service/notification/NotificationListenerService)
    BindNotificationListenerService,
    /// Must be required by a [`PrintService`], to ensure that only the system can
    /// bind to it.
    ///
    /// [PrintService]::(https://developer.android.com/reference/android/printservice/PrintService)
    BindPrintService,
    /// Must be required by a [`QuickAccessWalletService`] to ensure that only the
    /// system can bind to it.
    ///
    /// [QuickAccessWalletService]::(https://developer.android.com/reference/android/service/quickaccesswallet/QuickAccessWalletService)
    BindQuickAccessWalletService,
    /// Allows an application to bind to third party quick settings tiles.
    BindQuickSettingsTile,
    /// Must be required by a [`RemoteViewsService`], to ensure that only the system
    /// can bind to it.
    ///
    /// [RemoteViewsService]::(https://developer.android.com/reference/android/widget/RemoteViewsService)
    BindRrmoteviews,
    /// Must be required by a [`CallScreeningService`], to ensure that only the system
    /// can bind to it.
    ///
    /// [CallScreeningService]::(https://developer.android.com/reference/android/telecom/CallScreeningService)
    BindScreeningService,
    /// Must be required by a [`ConnectionService`], to ensure that only the system can
    /// bind to it.
    ///
    /// [ConnectionService]::(https://developer.android.com/reference/android/telecom/ConnectionService)
    BindTelecomConnectionService,
    /// Must be required by a TextService (e.g. SpellCheckerService) to ensure that
    /// only the system can bind to it.
    BindTextService,
    /// Must be required by a [`TvInputService`] to ensure that only the system can
    /// bind to it.
    ///
    /// [TvInputService]::(https://developer.android.com/reference/android/media/tv/TvInputService)
    BindTvInput,
    /// Must be required by a link [`VisualVoicemailService`] to ensure that only the
    /// system can bind to it.
    ///
    /// [VisualVoicemailService]::(https://developer.android.com/reference/android/telephony/VisualVoicemailService)
    BindVisualVoicemailService,
    /// Must be required by a [`VoiceInteractionService`], to ensure that only the
    /// system can bind to it.
    ///
    /// [VoiceInteractionService]::(https://developer.android.com/reference/android/service/voice/VoiceInteractionService)
    BindVoiceInteraction,
    /// Must be required by a [`VpnService`], to ensure that only the system can bind
    /// to it.
    ///
    /// [VpnService]::(https://developer.android.com/reference/android/net/VpnService)
    BindVpnService,
    /// Must be required by an [`VrListenerService`], to ensure that only the system
    /// can bind to it.
    ///
    /// [VrListenerService]::(https://developer.android.com/reference/android/service/vr/VrListenerService)
    BindVrListenerService,
    /// Must be required by a [`WallpaperService`], to ensure that only the system can
    /// bind to it.
    ///
    /// [WallpaperService]::(https://developer.android.com/reference/android/service/wallpaper/WallpaperService)
    BindWallpaper,
    /// Allows applications to connect to paired bluetooth devices
    Bluetooth,
    /// Allows applications to discover and pair bluetooth devices
    BluetoothAdmin,
    /// Required to be able to advertise to nearby Bluetooth devices
    BluetoothAdvertise,
    /// Required to be able to connect to paired Bluetooth devices
    BluetoothConnect,
    /// Allows applications to pair bluetooth devices without user interaction, and to
    /// allow or disallow phonebook access or message access
    BluetoothPrivileged,
    /// Required to be able to discover and pair nearby Bluetooth devices
    BluetoothScan,
    /// Allows an application to access data from sensors that the user uses to measure
    /// what is happening inside their body, such as heart rate
    BodySensors,
    /// Allows an application to broadcast a notification that an application package
    /// has been removed
    BroadcastPackageRemoved,
    /// Allows an application to broadcast an SMS receipt notification
    BroadcastSMS,
    /// Allows an application to broadcast sticky intents
    BroadcastSticky,
    /// Allows an application to broadcast a WAP PUSH receipt notification
    BroadcastWapPush,
    /// Allows an app which implements the [`InCallService`] API to be eligible to be
    /// enabled as a calling companion app
    ///
    /// [InCallService]::(https://developer.android.com/reference/android/telecom/InCallService)
    CallCompanionApp,
    /// Allows an application to initiate a phone call without going through the Dialer
    /// user interface for the user to confirm the call
    CallPhone,
    /// Allows an application to call any phone number, including emergency numbers,
    /// without going through the Dialer user interface for the user to confirm the
    /// call being placed
    CallPrivileged,
    /// Required to be able to access the camera device
    Camera,
    /// Allows an application to capture audio output
    CaptureAudioOutput,
    /// Allows an application to change whether an application component
    /// (other than its own) is enabled or not
    ChangeComponentEnabledState,
    /// Allows an application to modify the current configuration, such as locale
    ChangeConfiguration,
    /// Allows applications to change network connectivity state
    ChangeNetworkState,
    /// Allows applications to enter Wi-Fi Multicast mode
    ChangeWifiMulticastState,
    /// Allows applications to change Wi-Fi connectivity state
    ChangeWifiState,
    /// Allows an application to clear the caches of all installed applications on
    /// the device
    ClearAppCache,
    /// Allows enabling/disabling location update notifications from the radio
    ControlLocationUpdates,
    /// Old permission for deleting an app's cache files, no longer used, but signals
    /// for us to quietly ignore calls instead of throwing an exception.
    DeleteCacheFiles,
    /// Allows an application to delete packages
    DeletePackages,
    /// Allows applications to RW to diagnostic resources
    Diagnostic,
    /// Allows applications to disable the keyguard if it is not secure
    DisableKeyguard,
    /// Allows an application to retrieve state dump information from system services
    Dump,
    /// Allows an application to expand or collapse the status bar
    ExpandStatusBar,
    /// Run as a manufacturer test application, running as the root user
    FactoryTest,
    /// Allows a regular application to use [`Service.startForeground`]
    ///
    /// [Service.startForeground]::(https://developer.android.com/reference/android/app/Service#startForeground(int,%20android.app.Notification))
    ForegroundService,
    /// Allows access to the list of accounts in the Accounts Service
    GetAccounts,
    /// Allows access to the list of accounts in the Accounts Service
    GetAccountsPrivileged,
    /// Allows an application to find out the space used by any package
    GetPackageSize,
    /// This constant was deprecated in API level 21. No longer enforced
    GetTasks,
    /// This permission can be used on content providers to allow the global search
    /// system to access their data
    GlobalSearch,
    /// Allows an app to prevent non-system-overlay windows from being drawn on top
    /// of it
    HighOverlayWindows,
    /// Allows an app to access sensor data with a sampling rate greater than 200 Hz
    HighSamplingRateSensors,
    /// Allows an application to install a location provider into the Location Manager
    InstallLocationProvider,
    /// Allows an application to install packages
    InstallPackages,
    /// Allows an application to install a shortcut in Launcher
    InstallShortcut,
    /// Allows an instant app to create foreground services
    InstantAppForegroundService,
    /// Allows interaction across profiles in the same profile group
    InteractAcrossProfiles,
    /// Allows applications to open network sockets
    Internet,
    /// Allows an application to call [`ActivityManager.killBackgroundProcesses(String)`]
    ///
    /// [ActivityManager.killBackgroundProcesses(String)]::(https://developer.android.com/reference/android/app/ActivityManager#killBackgroundProcesses(java.lang.String))
    KillBackgroundProcesses,
    /// An application needs this permission for
    /// [`Settings.ACTION_SETTINGS_EMBED_DEEP_LINK_ACTIVITY`] to show its [`Activity`]
    /// embedded in Settings app.
    ///
    /// [Settings.ACTION_SETTINGS_EMBED_DEEP_LINK_ACTIVITY]::(https://developer.android.com/reference/android/provider/Settings#ACTION_SETTINGS_EMBED_DEEP_LINK_ACTIVITY)
    /// [Activity]::(https://developer.android.com/reference/android/app/Activity)
    LaunchMultiPaneSettingsDeepLink,
    /// Allows a data loader to read a package's access logs
    LoaderUsageStats,
    /// Allows an application to use location features in hardware, such as the
    /// geofencing api
    LocationHardware,
    /// Allows an application to manage access to documents, usually as part of a
    /// document picker
    ManageDocuments,
    /// Allows an application a broad access to external storage in scoped storage
    ManageExternalStorage,
    /// Allows an application to modify and delete media files on this device or any
    /// connected storage device without user confirmation
    ManageMedia,
    /// Allows to query ongoing call details and manage ongoing calls
    ///
    /// Protection level: signature|appop
    ManageOngoingCalls,
    /// Allows a calling application which manages its own calls through the
    /// self-managed [`ConnectionService`] APIs
    ///
    /// [ConnectionService]::(https://developer.android.com/reference/android/telecom/ConnectionService)
    ManageOwnCalls,
    /// Not for use by third-party applications
    MasterClear,
    /// Allows an application to know what content is playing and control its
    /// playback
    MediaContentControl,
    /// Allows an application to modify global audio settings
    ModifyAudioSettings,
    /// Allows modification of the telephony state - power on, mmi, etc
    ModifyPhoneState,
    /// Allows formatting file systems for removable storage
    MountFormatFilesystems,
    /// Allows mounting and unmounting file systems for removable storage
    MountUnmountFilesystems,
    /// Allows applications to perform I/O operations over NFC
    NFC,
    /// Allows applications to receive NFC preferred payment service information
    NFCPreferredPatmentInfo,
    /// Allows applications to receive NFC transaction events
    NFCTransactionEvent,
    /// Allows an application to collect component usage statistics
    ///
    /// Declaring the permission implies intention to use the API and the user of
    /// the device can grant permission through the Settings application
    PackageUsageStats,
    /// This constant was deprecated in API level 15. This functionality will be
    /// removed in the future; please do not use. Allow an application to make
    /// its activities persistent
    PersistentActivity,
    /// This constant was deprecated in API level 29. Applications should use
    /// [`CallRedirectionService`] instead of the [`Intent.ACTION_NEW_OUTGOING_CALL`]
    /// broadcast.
    ///
    /// [CallRedirectionService]::(https://developer.android.com/reference/android/telecom/CallRedirectionService)
    /// [Intent.ACTION_NEW_OUTGOING_CALL]::(https://developer.android.com/reference/android/content/Intent#ACTION_NEW_OUTGOING_CALL)
    ProcessOutgoingCalls,
    /// Allows query of any normal app on the device, regardless of manifest
    /// declarations
    QueryAllPackages,
    /// Allows an application to read the user's calendar data
    ReadCalendar,
    /// Allows an application to read the user's call log
    ReadCallLog,
    /// Allows an application to read the user's contacts data
    ReadContacts,
    /// Allows an application to read from external storage
    ReadExternalStorag,
    /// This constant was deprecated in API level 16. The API that used this
    /// permission has been removed
    ReadInputState,
    /// Allows an application to read the low-level system log files
    ReadLogs,
    /// Allows read access to the device's phone number(s)
    ReadPhoneNumbers,
    /// Allows read only access to phone state, including the current cellular
    /// network information, the status of any ongoing calls, and a list of
    /// any [`PhoneAccounts`] registered on the device.
    ///
    /// [PhoneAccounts]::(https://developer.android.com/reference/android/telecom/PhoneAccount)
    ReadPhoneState,
    /// Allows read only access to precise phone state
    ReadPrecisePhoneState,
    /// Allows an application to read SMS messages
    ReadSMS,
    /// Allows applications to read the sync settings
    ReadSyncSettings,
    /// Allows applications to read the sync stats
    ReadSyncStats,
    /// Allows an application to read voicemails in the system
    ReadVoicemail,
    /// Required to be able to reboot the device
    Reboot,
    /// Allows an application to receive the [`Intent.ACTION_BOOT_COMPLETED`]
    /// that is broadcast after the system finishes booting.
    ///
    /// [Intent.ACTION_BOOT_COMPLETED]::(https://developer.android.com/reference/android/content/Intent#ACTION_BOOT_COMPLETED)
    ReceiveBootCompleted,
    /// Allows an application to monitor incoming MMS messages
    ReceiveMMS,
    /// Allows an application to receive SMS messages
    ReceiveSMS,
    /// Allows an application to receive WAP push messages
    ReceiveWapPush,
    /// Allows an application to record audio
    RecordAudio,
    /// Allows an application to change the Z-order of tasks
    ReorderTasks,
    /// Allows app to request to be associated with a device via
    /// CompanionDeviceManager as a "watch"
    ///
    /// Protection level: normal
    RequestCompanionProfileWatch,
    /// Allows a companion app to run in the background
    RequestCompanionRunInBackground,
    /// Allows a companion app to start a foreground service from the background
    RequestCompanionStartForegroundServicesFromBackground,
    /// Allows a companion app to use data in the background
    RequestCompanionUseDataInBackground,
    /// Allows an application to request deleting packages
    RequestDeletePackages,
    /// Permission an application must hold in order to use
    /// [`Settings.ACTION_REQUEST_IGNORE_BATTERY_OPTIMIZATIONS`]
    ///
    /// [Settings.ACTION_REQUEST_IGNORE_BATTERY_OPTIMIZATIONS]::(https://developer.android.com/reference/android/provider/Settings#ACTION_REQUEST_IGNORE_BATTERY_OPTIMIZATIONS)
    RequestIgnoreBatteryOptimizations,
    /// Allows an application to request installing packages
    RequestInstallPackages,
    /// Allows an application to subscribe to notifications about the presence
    /// status change of their associated companion device
    RequestObserveCompanionDevicePresence,
    /// Allows an application to request the screen lock complexity and prompt
    /// users to update the screen lock to a certain complexity level
    RequestPasswordComplexity,
    /// This constant was deprecated in API level 15
    ///
    /// The [`ActivityManager.restartPackage(String)`] API is no longer supported.
    ///
    /// [ActivityManager.restartPackage(String)]::(https://developer.android.com/reference/android/app/ActivityManager#restartPackage(java.lang.String))
    RestartPackages,
    /// Allows applications to use exact alarm APIs
    ScheduleExactAlarm,
    /// Allows an application (Phone) to send a request to other applications to
    /// handle the respond-via-message action during incoming calls.
    SendRespondViaMessage,
    /// Allows an application to send SMS messages
    SendSMS,
    /// Allows an application to broadcast an Intent to set an alarm for the user
    SetAlarm,
    /// Allows an application to control whether activities are immediately finished
    /// when put in the background
    SetAlwaysFinish,
    /// Modify the global animation scaling factor
    SetAnimationScale,
    /// Configure an application for debugging
    SetDebugApp,
    /// This constant was deprecated in API level 15. No longer useful, see
    /// [`PackageManager.addPackageToPreferred(String)`] for details.
    ///
    /// [PackageManager.addPackageToPreferred(String)]::(https://developer.android.com/reference/android/content/pm/PackageManager#addPackageToPreferred(java.lang.String))
    SetPreferredApplications,
    /// Allows an application to set the maximum number of (not needed)
    /// application processes that can be running.
    SetProcessLimit,
    /// Allows applications to set the system time directly
    SetTime,
    /// Allows applications to set the system time zone directly
    SetTimeZone,
    /// Allows applications to set the wallpaper
    SetWallpaper,
    /// Allows applications to set the wallpaper hints
    SetWallpaperHints,
    /// Allow an application to request that a signal be sent to all persistent processes
    SignalPersisteneProcesses,
    /// This constant was deprecated in API level 31. The API that used this permission
    /// is no longer functional
    SMSFinancialTransactions,
    /// Allows an application to start foreground services from the background at any time
    StartForegroundServicesFromBackground,
    /// Allows the holder to start the permission usage screen for an app
    StartViewPermissionUsage,
    /// Allows an application to open, close, or disable the status bar and its icons
    StatusBar,
    /// Allows an app to create windows using the type
    /// [`WindowManager.LayoutParams.TYPE_APPLICATION_OVERLAY`], shown on top of all
    /// other apps.
    ///
    /// [WindowManager.LayoutParams.TYPE_APPLICATION_OVERLAY]::(https://developer.android.com/reference/android/view/WindowManager.LayoutParams#TYPE_APPLICATION_OVERLAY)
    SystemAlertWindow,
    /// Allows using the device's IR transmitter, if available
    TransmitIr,
    /// Don't use this permission in your app
    UninstallShotycut,
    /// Allows an application to update device statistics
    UpdateDeviceStats,
    /// Allows an application to indicate via
    /// [`PackageInstaller.SessionParams.setRequireUserAction(int)`] that user action
    /// should not be required for an app update
    ///
    /// [PackageInstaller.SessionParams.setRequireUserAction(int)]::(https://developer.android.com/reference/android/content/pm/PackageInstaller.SessionParams#setRequireUserAction(int))
    UpdatePackagesWithoutUserAction,
    /// Allows an app to use device supported biometric modalities
    UseBiometric,
    /// This constant was deprecated in API level 28. Applications should request
    /// [`USE_BIOMETRIC`] instead
    ///
    /// [USE_BIOMETRIC]::(https://developer.android.com/reference/android/Manifest.permission#USE_BIOMETRIC)
    UseFingerprint,
    /// Required for apps targeting [`Build.VERSION_CODES.Q`] that want to use
    /// [`notification full screen intents`]
    ///
    /// [Build.VERSION_CODES.Q]::(https://developer.android.com/reference/android/os/Build.VERSION_CODES#Q)
    /// [notification full screen intents]::(https://developer.android.com/reference/android/app/Notification.Builder#setFullScreenIntent(android.app.PendingIntent,%20boolean))
    UseFullScreenIntent,
    /// Allows to read device identifiers and use ICC based authentication like EAP-AKA
    UseIccAuthWithDeviceIdentifier,
    /// Allows an application to use SIP service
    UseSip,
    /// Required to be able to range to devices using ultra-wideband
    UwbRanging,
    /// Allows access to the vibrator
    Vibrate,
    /// Allows using PowerManager WakeLocks to keep processor from sleeping or screen
    /// from dimming
    WakeLock,
    /// Allows applications to write the apn settings and read sensitive fields of an
    /// existing apn settings like user and password
    WriteApnSettings,
    /// Allows an application to write the user's calendar data
    WriteCalendar,
    /// Allows an application to write (but not read) the user's call log data
    WriteCallLog,
    /// Allows an application to write the user's contacts data
    WriteContacts,
    /// Allows an application to write to external storage
    WriteExternalStorage,
    /// Allows an application to modify the Google service map
    WriteGservices,
    /// Allows an application to read or write the secure system settings
    WriteSecureSettings,
    /// Allows an application to read or write the system settings
    WriteSettings,
    /// Allows applications to write the sync settings
    WriteSyncSettings,
    /// Allows an application to modify and remove existing voicemails in the system
    WriteVoicemail,
}

impl AndroidPermission {
    /// The permission's name, without the platform's namespace.
    pub open spec fn name(self) -> Seq<char> {
        match self {
            AndroidPermission::AcceptHandover => "ACCEPT_HANDOVER"@,
            AndroidPermission::AccessBackgroundLocation => "ACCESS_BACKGROUND_LOCATION"@,
            AndroidPermission::AccessBlobsAcrossUsers => "ACCESS_BLOBS_ACROSS_USERS"@,
            AndroidPermission::AccessCheckinProperties => "ACCESS_CHECKIN_PROPERTIES"@,
            AndroidPermission::AccessCoarseLocation => "ACCESS_COARSE_LOCATION"@,
            AndroidPermission::AccessFineLocation => "ACCESS_FINE_LOCATION"@,
            AndroidPermission::AccessLocationExtraCommands => "ACCESS_LOCATION_EXTRA_COMMANDS"@,
            AndroidPermission::AccessMediaLocation => "ACCESS_MEDIA_LOCATION"@,
            AndroidPermission::AccessNetworkState => "ACCESS_NETWORK_STATE"@,
            AndroidPermission::AccessNotificationPolicy => "ACCESS_NOTIFICATION_POLICY"@,
            AndroidPermission::AccessWifiState => "ACCESS_WIFI_STATE"@,
            AndroidPermission::AccountManager => "ACCOUNT_MANAGER"@,
            AndroidPermission::ActivityRecognition => "ACTIVITY_RECOGNITION"@,
            AndroidPermission::AddVoicemail => "ADD_VOICEMAIL"@,
            AndroidPermission::AnswerPhoneCalls => "ANSWER_PHONE_CALLS"@,
            AndroidPermission::BattertStats => "BATTERY_STATS"@,
            AndroidPermission::BindAccessibilityService => "BIND_ACCESSIBILITY_SERVICE"@,
            AndroidPermission::BindAppwidget => "BIND_APPWIDGET"@,
            AndroidPermission::BindAutofillService => "BIND_AUTOFILL_SERVICE"@,
            AndroidPermission::BindCallRedirectionService => "BIND_CALL_REDIRECTION_SERVICE"@,
            AndroidPermission::BindCarrierMessagingClientService => "BIND_CARRIER_MESSAGING_CLIENT_SERVICE"@,
            AndroidPermission::BindCarrierMessagingService => "BIND_CARRIER_MESSAGING_SERVICE"@,
            AndroidPermission::BindCarrierServices => "BIND_CARRIER_SERVICES"@,
            AndroidPermission::BindChooserTargetService => "BIND_CHOOSER_TARGET_SERVICE"@,
            AndroidPermission::BindCompanionDeviceService => "BIND_COMPANION_DEVICE_SERVICE"@,
            AndroidPermission::BindConditionProviderService => "BIND_CONDITION_PROVIDER_SERVICE"@,
            AndroidPermission::BindControls => "BIND_CONTROLS"@,
            AndroidPermission::BindDeviceAdmin => "BIND_DEVICE_ADMIN"@,
            AndroidPermission::BindDreamService => "BIND_DREAM_SERVICE"@,
            AndroidPermission::BindIncallService => "BIND_INCALL_SERVICE"@,
            AndroidPermission::BindInputMethod => "BIND_INPUT_METHOD"@,
            AndroidPermission::BindMidiDeviceService => "BIND_MIDI_DEVICE_SERVICE"@,
            AndroidPermission::BindNfcService => "BIND_NFC_SERVICE"@,
            AndroidPermission::BindNotificationListenerService => "BIND_NOTIFICATION_LISTENER_SERVICE"@,
            AndroidPermission::BindPrintService => "BIND_PRINT_SERVICE"@,
            AndroidPermission::BindQuickAccessWalletService => "BIND_QUICK_ACCESS_WALLET_SERVICE"@,
            AndroidPermission::BindQuickSettingsTile => "BIND_QUICK_SETTINGS_TILE"@,
            AndroidPermission::BindRrmoteviews => "BIND_REMOTEVIEWS"@,
            AndroidPermission::BindScreeningService => "BIND_SCREENING_SERVICE"@,
            AndroidPermission::BindTelecomConnectionService => "BIND_TELECOM_CONNECTION_SERVICE"@,
            AndroidPermission::BindTextService => "BIND_TEXT_SERVICE"@,
            AndroidPermission::BindTvInput => "BIND_TV_INPUT"@,
            AndroidPermission::BindVisualVoicemailService => "BIND_VISUAL_VOICEMAIL_SERVICE"@,
            AndroidPermission::BindVoiceInteraction => "BIND_VOICE_INTERACTION"@,
            AndroidPermission::BindVpnService => "BIND_VPN_SERVICE"@,
            AndroidPermission::BindVrListenerService => "BIND_VR_LISTENER_SERVICE"@,
            AndroidPermission::BindWallpaper => "BIND_WALLPAPER"@,
            AndroidPermission::Bluetooth => "BLUETOOTH"@,
            AndroidPermission::BluetoothAdmin => "BLUETOOTH_ADMIN"@,
            AndroidPermission::BluetoothAdvertise => "BLUETOOTH_ADVERTISE"@,
            AndroidPermission::BluetoothConnect => "BLUETOOTH_CONNECT"@,
            AndroidPermission::BluetoothPrivileged => "BLUETOOTH_PRIVILEGED"@,
            AndroidPermission::BluetoothScan => "BLUETOOTH_SCAN"@,
            AndroidPermission::BodySensors => "BODY_SENSORS"@,
            AndroidPermission::BroadcastPackageRemoved => "BROADCAST_PACKAGE_REMOVED"@,
            AndroidPermission::BroadcastSMS => "BROADCAST_SMS"@,
            AndroidPermission::BroadcastSticky => "BROADCAST_STICKY"@,
            AndroidPermission::BroadcastWapPush => "BROADCAST_WAP_PUSH"@,
            AndroidPermission::CallCompanionApp => "CALL_COMPANION_APP"@,
            AndroidPermission::CallPhone => "CALL_PHONE"@,
            AndroidPermission::CallPrivileged => "CALL_PRIVILEGED"@,
            AndroidPermission::Camera => "CAMERA"@,
            AndroidPermission::CaptureAudioOutput => "CAPTURE_AUDIO_OUTPUT"@,
            AndroidPermission::ChangeComponentEnabledState => "CHANGE_COMPONENT_ENABLED_STATE"@,
            AndroidPermission::ChangeConfiguration => "CHANGE_CONFIGURATION"@,
            AndroidPermission::ChangeNetworkState => "CHANGE_NETWORK_STATE"@,
            AndroidPermission::ChangeWifiMulticastState => "CHANGE_WIFI_MULTICAST_STATE"@,
            AndroidPermission::ChangeWifiState => "CHANGE_WIFI_STATE"@,
            AndroidPermission::ClearAppCache => "CLEAR_APP_CACHE"@,
            AndroidPermission::ControlLocationUpdates => "CONTROL_LOCATION_UPDATES"@,
            AndroidPermission::DeleteCacheFiles => "DELETE_CACHE_FILES"@,
            AndroidPermission::DeletePackages => "DELETE_PACKAGES"@,
            AndroidPermission::Diagnostic => "DIAGNOSTIC"@,
            AndroidPermission::DisableKeyguard => "DISABLE_KEYGUARD"@,
            AndroidPermission::Dump => "DUMP"@,
            AndroidPermission::ExpandStatusBar => "EXPAND_STATUS_BAR"@,
            AndroidPermission::FactoryTest => "FACTORY_TEST"@,
            AndroidPermission::ForegroundService => "FOREGROUND_SERVICE"@,
            AndroidPermission::GetAccounts => "GET_ACCOUNTS"@,
            AndroidPermission::GetAccountsPrivileged => "GET_ACCOUNTS_PRIVILEGED"@,
            AndroidPermission::GetPackageSize => "GET_PACKAGE_SIZE"@,
            AndroidPermission::GetTasks => "GET_TASKS"@,
            AndroidPermission::GlobalSearch => "GLOBAL_SEARCH"@,
            AndroidPermission::HighOverlayWindows => "HIDE_OVERLAY_WINDOWS"@,
            AndroidPermission::HighSamplingRateSensors => "HIGH_SAMPLING_RATE_SENSORS"@,
            AndroidPermission::InstallLocationProvider => "INSTALL_LOCATION_PROVIDER"@,
            AndroidPermission::InstallPackages => "INSTALL_PACKAGES"@,
            AndroidPermission::InstallShortcut => "INSTALL_SHORTCUT"@,
            AndroidPermission::InstantAppForegroundService => "INSTANT_APP_FOREGROUND_SERVICE"@,
            AndroidPermission::InteractAcrossProfiles => "INTERACT_ACROSS_PROFILES"@,
            AndroidPermission::Internet => "INTERNET"@,
            AndroidPermission::KillBackgroundProcesses => "KILL_BACKGROUND_PROCESSES"@,
            AndroidPermission::LaunchMultiPaneSettingsDeepLink => "LAUNCH_MULTI_PANE_SETTINGS_DEEP_LINK"@,
            AndroidPermission::LoaderUsageStats => "LOADER_USAGE_STATS"@,
            AndroidPermission::LocationHardware => "LOCATION_HARDWARE"@,
            AndroidPermission::ManageDocuments => "MANAGE_DOCUMENTS"@,
            AndroidPermission::ManageExternalStorage => "MANAGE_EXTERNAL_STORAGE"@,
            AndroidPermission::ManageMedia => "MANAGE_MEDIA"@,
            AndroidPermission::ManageOngoingCalls => "MANAGE_ONGOING_CALLS"@,
            AndroidPermission::ManageOwnCalls => "MANAGE_OWN_CALLS"@,
            AndroidPermission::MasterClear => "MASTER_CLEAR"@,
            AndroidPermission::MediaContentControl => "MEDIA_CONTENT_CONTROL"@,
            AndroidPermission::ModifyAudioSettings => "MODIFY_AUDIO_SETTINGS"@,
            AndroidPermission::ModifyPhoneState => "MODIFY_PHONE_STATE"@,
            AndroidPermission::MountFormatFilesystems => "MOUNT_FORMAT_FILESYSTEMS"@,
            AndroidPermission::MountUnmountFilesystems => "MOUNT_UNMOUNT_FILESYSTEMS"@,
            AndroidPermission::NFC => "NFC"@,
            AndroidPermission::NFCPreferredPatmentInfo => "NFC_PREFERRED_PAYMENT_INFO"@,
            AndroidPermission::NFCTransactionEvent => "NFC_TRANSACTION_EVENT"@,
            AndroidPermission::PackageUsageStats => "PACKAGE_USAGE_STATS"@,
            AndroidPermission::PersistentActivity => "PERSISTENT_ACTIVITY"@,
            AndroidPermission::ProcessOutgoingCalls => "PROCESS_OUTGOING_CALLS"@,
            AndroidPermission::QueryAllPackages => "QUERY_ALL_PACKAGES"@,
            AndroidPermission::ReadCalendar => "READ_CALENDAR"@,
            AndroidPermission::ReadCallLog => "READ_CALL_LOG"@,
            AndroidPermission::ReadContacts => "READ_CONTACTS"@,
            AndroidPermission::ReadExternalStorag => "READ_EXTERNAL_STORAG"@,
            AndroidPermission::ReadInputState => "READ_INPUT_STATE"@,
            AndroidPermission::ReadLogs => "READ_LOGS"@,
            AndroidPermission::ReadPhoneNumbers => "READ_PHONE_NUMBERS"@,
            AndroidPermission::ReadPhoneState => "READ_PHONE_STATE"@,
            AndroidPermission::ReadPrecisePhoneState => "READ_PRECISE_PHONE_STATE"@,
            AndroidPermission::ReadSMS => "READ_SMS"@,
            AndroidPermission::ReadSyncSettings => "READ_SYNC_SETTINGS"@,
            AndroidPermission::ReadSyncStats => "READ_SYNC_STATS"@,
            AndroidPermission::ReadVoicemail => "READ_VOICEMAIL"@,
            AndroidPermission::Reboot => "REBOOT"@,
            AndroidPermission::ReceiveBootCompleted => "RECEIVE_BOOT_COMPLETED"@,
            AndroidPermission::ReceiveMMS => "RECEIVE_MMS"@,
            AndroidPermission::ReceiveSMS => "RECEIVE_SMS"@,
            AndroidPermission::ReceiveWapPush => "RECEIVE_WAP_PUSH"@,
            AndroidPermission::RecordAudio => "RECORD_AUDIO"@,
            AndroidPermission::ReorderTasks => "REORDER_TASKS"@,
            AndroidPermission::RequestCompanionProfileWatch => "REQUEST_COMPANION_PROFILE_WATCH"@,
            AndroidPermission::RequestCompanionRunInBackground => "REQUEST_COMPANION_RUN_IN_BACKGROUND"@,
            AndroidPermission::RequestCompanionStartForegroundServicesFromBackground => "REQUEST_COMPANION_START_FOREGROUND_SERVICES_FROM_BACKGROUND"@,
            AndroidPermission::RequestCompanionUseDataInBackground => "REQUEST_COMPANION_USE_DATA_IN_BACKGROUND"@,
            AndroidPermission::RequestDeletePackages => "REQUEST_DELETE_PACKAGES"@,
            AndroidPermission::RequestIgnoreBatteryOptimizations => "REQUEST_IGNORE_BATTERY_OPTIMIZATIONS"@,
            AndroidPermission::RequestInstallPackages => "REQUEST_INSTALL_PACKAGES"@,
            AndroidPermission::RequestObserveCompanionDevicePresence => "REQUEST_OBSERVE_COMPANION_DEVICE_PRESENCE"@,
            AndroidPermission::RequestPasswordComplexity => "REQUEST_PASSWORD_COMPLEXITY"@,
            AndroidPermission::RestartPackages => "RESTART_PACKAGES"@,
            AndroidPermission::ScheduleExactAlarm => "SCHEDULE_EXACT_ALARM"@,
            AndroidPermission::SendRespondViaMessage => "SEND_RESPOND_VIA_MESSAGE"@,
            AndroidPermission::SendSMS => "SEND_SMS"@,
            AndroidPermission::SetAlarm => "SET_ALARM"@,
            AndroidPermission::SetAlwaysFinish => "SET_ALWAYS_FINISH"@,
            AndroidPermission::SetAnimationScale => "SET_ANIMATION_SCALE"@,
            AndroidPermission::SetDebugApp => "SET_DEBUG_APP"@,
            AndroidPermission::SetPreferredApplications => "SET_PREFERRED_APPLICATIONS"@,
            AndroidPermission::SetProcessLimit => "SET_PROCESS_LIMIT"@,
            AndroidPermission::SetTime => "SET_TIME"@,
            AndroidPermission::SetTimeZone => "SET_TIME_ZONE"@,
            AndroidPermission::SetWallpaper => "SET_WALLPAPER"@,
            AndroidPermission::SetWallpaperHints => "SET_WALLPAPER_HINTS"@,
            AndroidPermission::SignalPersisteneProcesses => "SIGNAL_PERSISTENT_PROCESSES"@,
            AndroidPermission::SMSFinancialTransactions => "SMS_FINANCIAL_TRANSACTIONS"@,
            AndroidPermission::StartForegroundServicesFromBackground => "START_FOREGROUND_SERVICES_FROM_BACKGROUND"@,
            AndroidPermission::StartViewPermissionUsage => "START_VIEW_PERMISSION_USAGE"@,
            AndroidPermission::StatusBar => "STATUS_BAR"@,
            AndroidPermission::SystemAlertWindow => "SYSTEM_ALERT_WINDOW"@,
            AndroidPermission::TransmitIr => "TRANSMIT_IR"@,
            AndroidPermission::UninstallShotycut => "UNINSTALL_SHORTCUT"@,
            AndroidPermission::UpdateDeviceStats => "UPDATE_DEVICE_STATS"@,
            AndroidPermission::UpdatePackagesWithoutUserAction => "UPDATE_PACKAGES_WITHOUT_USER_ACTION"@,
            AndroidPermission::UseBiometric => "USE_BIOMETRIC"@,
            AndroidPermission::UseFingerprint => "USE_FINGERPRINT"@,
            AndroidPermission::UseFullScreenIntent => "USE_FULL_SCREEN_INTENT"@,
            AndroidPermission::UseIccAuthWithDeviceIdentifier => "USE_ICC_AUTH_WITH_DEVICE_IDENTIFIER"@,
            AndroidPermission::UseSip => "USE_SIP"@,
            AndroidPermission::UwbRanging => "UWB_RANGING"@,
            AndroidPermission::Vibrate => "VIBRATE"@,
            AndroidPermission::WakeLock => "WAKE_LOCK"@,
            AndroidPermission::WriteApnSettings => "WRITE_APN_SETTINGS"@,
            AndroidPermission::WriteCalendar => "WRITE_CALENDAR"@,
            AndroidPermission::WriteCallLog => "WRITE_CALL_LOG"@,
            AndroidPermission::WriteContacts => "WRITE_CONTACTS"@,
            AndroidPermission::WriteExternalStorage => "WRITE_EXTERNAL_STORAGE"@,
            AndroidPermission::WriteGservices => "WRITE_GSERVICES"@,
            AndroidPermission::WriteSecureSettings => "WRITE_SECURE_SETTINGS"@,
            AndroidPermission::WriteSettings => "WRITE_SETTINGS"@,
            AndroidPermission::WriteSyncSettings => "WRITE_SYNC_SETTINGS"@,
            AndroidPermission::WriteVoicemail => "WRITE_VOICEMAIL"@,
        }
    }

    /// The text that the platform knows the value by.
    pub fn as_str(&self) -> (s: &'static str)
        ensures
            s@ == self.name(),
    {
        match self {
            AndroidPermission::AcceptHandover => "ACCEPT_HANDOVER",
            AndroidPermission::AccessBackgroundLocation => "ACCESS_BACKGROUND_LOCATION",
            AndroidPermission::AccessBlobsAcrossUsers => "ACCESS_BLOBS_ACROSS_USERS",
            AndroidPermission::AccessCheckinProperties => "ACCESS_CHECKIN_PROPERTIES",
            AndroidPermission::AccessCoarseLocation => "ACCESS_COARSE_LOCATION",
            AndroidPermission::AccessFineLocation => "ACCESS_FINE_LOCATION",
            AndroidPermission::AccessLocationExtraCommands => "ACCESS_LOCATION_EXTRA_COMMANDS",
            AndroidPermission::AccessMediaLocation => "ACCESS_MEDIA_LOCATION",
            AndroidPermission::AccessNetworkState => "ACCESS_NETWORK_STATE",
            AndroidPermission::AccessNotificationPolicy => "ACCESS_NOTIFICATION_POLICY",
            AndroidPermission::AccessWifiState => "ACCESS_WIFI_STATE",
            AndroidPermission::AccountManager => "ACCOUNT_MANAGER",
            AndroidPermission::ActivityRecognition => "ACTIVITY_RECOGNITION",
            AndroidPermission::AddVoicemail => "ADD_VOICEMAIL",
            AndroidPermission::AnswerPhoneCalls => "ANSWER_PHONE_CALLS",
            AndroidPermission::BattertStats => "BATTERY_STATS",
            AndroidPermission::BindAccessibilityService => "BIND_ACCESSIBILITY_SERVICE",
            AndroidPermission::BindAppwidget => "BIND_APPWIDGET",
            AndroidPermission::BindAutofillService => "BIND_AUTOFILL_SERVICE",
            AndroidPermission::BindCallRedirectionService => "BIND_CALL_REDIRECTION_SERVICE",
            AndroidPermission::BindCarrierMessagingClientService => "BIND_CARRIER_MESSAGING_CLIENT_SERVICE",
            AndroidPermission::BindCarrierMessagingService => "BIND_CARRIER_MESSAGING_SERVICE",
            AndroidPermission::BindCarrierServices => "BIND_CARRIER_SERVICES",
            AndroidPermission::BindChooserTargetService => "BIND_CHOOSER_TARGET_SERVICE",
            AndroidPermission::BindCompanionDeviceService => "BIND_COMPANION_DEVICE_SERVICE",
            AndroidPermission::BindConditionProviderService => "BIND_CONDITION_PROVIDER_SERVICE",
            AndroidPermission::BindControls => "BIND_CONTROLS",
            AndroidPermission::BindDeviceAdmin => "BIND_DEVICE_ADMIN",
            AndroidPermission::BindDreamService => "BIND_DREAM_SERVICE",
            AndroidPermission::BindIncallService => "BIND_INCALL_SERVICE",
            AndroidPermission::BindInputMethod => "BIND_INPUT_METHOD",
            AndroidPermission::BindMidiDeviceService => "BIND_MIDI_DEVICE_SERVICE",
            AndroidPermission::BindNfcService => "BIND_NFC_SERVICE",
            AndroidPermission::BindNotificationListenerService => "BIND_NOTIFICATION_LISTENER_SERVICE",
            AndroidPermission::BindPrintService => "BIND_PRINT_SERVICE",
            AndroidPermission::BindQuickAccessWalletService => "BIND_QUICK_ACCESS_WALLET_SERVICE",
            AndroidPermission::BindQuickSettingsTile => "BIND_QUICK_SETTINGS_TILE",
            AndroidPermission::BindRrmoteviews => "BIND_REMOTEVIEWS",
            AndroidPermission::BindScreeningService => "BIND_SCREENING_SERVICE",
            AndroidPermission::BindTelecomConnectionService => "BIND_TELECOM_CONNECTION_SERVICE",
            AndroidPermission::BindTextService => "BIND_TEXT_SERVICE",
            AndroidPermission::BindTvInput => "BIND_TV_INPUT",
            AndroidPermission::BindVisualVoicemailService => "BIND_VISUAL_VOICEMAIL_SERVICE",
            AndroidPermission::BindVoiceInteraction => "BIND_VOICE_INTERACTION",
            AndroidPermission::BindVpnService => "BIND_VPN_SERVICE",
            AndroidPermission::BindVrListenerService => "BIND_VR_LISTENER_SERVICE",
            AndroidPermission::BindWallpaper => "BIND_WALLPAPER",
            AndroidPermission::Bluetooth => "BLUETOOTH",
            AndroidPermission::BluetoothAdmin => "BLUETOOTH_ADMIN",
            AndroidPermission::BluetoothAdvertise => "BLUETOOTH_ADVERTISE",
            AndroidPermission::BluetoothConnect => "BLUETOOTH_CONNECT",
            AndroidPermission::BluetoothPrivileged => "BLUETOOTH_PRIVILEGED",
            AndroidPermission::BluetoothScan => "BLUETOOTH_SCAN",
            AndroidPermission::BodySensors => "BODY_SENSORS",
            AndroidPermission::BroadcastPackageRemoved => "BROADCAST_PACKAGE_REMOVED",
            AndroidPermission::BroadcastSMS => "BROADCAST_SMS",
            AndroidPermission::BroadcastSticky => "BROADCAST_STICKY",
            AndroidPermission::BroadcastWapPush => "BROADCAST_WAP_PUSH",
            AndroidPermission::CallCompanionApp => "CALL_COMPANION_APP",
            AndroidPermission::CallPhone => "CALL_PHONE",
            AndroidPermission::CallPrivileged => "CALL_PRIVILEGED",
            AndroidPermission::Camera => "CAMERA",
            AndroidPermission::CaptureAudioOutput => "CAPTURE_AUDIO_OUTPUT",
            AndroidPermission::ChangeComponentEnabledState => "CHANGE_COMPONENT_ENABLED_STATE",
            AndroidPermission::ChangeConfiguration => "CHANGE_CONFIGURATION",
            AndroidPermission::ChangeNetworkState => "CHANGE_NETWORK_STATE",
            AndroidPermission::ChangeWifiMulticastState => "CHANGE_WIFI_MULTICAST_STATE",
            AndroidPermission::ChangeWifiState => "CHANGE_WIFI_STATE",
            AndroidPermission::ClearAppCache => "CLEAR_APP_CACHE",
            AndroidPermission::ControlLocationUpdates => "CONTROL_LOCATION_UPDATES",
            AndroidPermission::DeleteCacheFiles => "DELETE_CACHE_FILES",
            AndroidPermission::DeletePackages => "DELETE_PACKAGES",
            AndroidPermission::Diagnostic => "DIAGNOSTIC",
            AndroidPermission::DisableKeyguard => "DISABLE_KEYGUARD",
            AndroidPermission::Dump => "DUMP",
            AndroidPermission::ExpandStatusBar => "EXPAND_STATUS_BAR",
            AndroidPermission::FactoryTest => "FACTORY_TEST",
            AndroidPermission::ForegroundService => "FOREGROUND_SERVICE",
            AndroidPermission::GetAccounts => "GET_ACCOUNTS",
            AndroidPermission::GetAccountsPrivileged => "GET_ACCOUNTS_PRIVILEGED",
            AndroidPermission::GetPackageSize => "GET_PACKAGE_SIZE",
            AndroidPermission::GetTasks => "GET_TASKS",
            AndroidPermission::GlobalSearch => "GLOBAL_SEARCH",
            AndroidPermission::HighOverlayWindows => "HIDE_OVERLAY_WINDOWS",
            AndroidPermission::HighSamplingRateSensors => "HIGH_SAMPLING_RATE_SENSORS",
            AndroidPermission::InstallLocationProvider => "INSTALL_LOCATION_PROVIDER",
            AndroidPermission::InstallPackages => "INSTALL_PACKAGES",
            AndroidPermission::InstallShortcut => "INSTALL_SHORTCUT",
            AndroidPermission::InstantAppForegroundService => "INSTANT_APP_FOREGROUND_SERVICE",
            AndroidPermission::InteractAcrossProfiles => "INTERACT_ACROSS_PROFILES",
            AndroidPermission::Internet => "INTERNET",
            AndroidPermission::KillBackgroundProcesses => "KILL_BACKGROUND_PROCESSES",
            AndroidPermission::LaunchMultiPaneSettingsDeepLink => "LAUNCH_MULTI_PANE_SETTINGS_DEEP_LINK",
            AndroidPermission::LoaderUsageStats => "LOADER_USAGE_STATS",
            AndroidPermission::LocationHardware => "LOCATION_HARDWARE",
            AndroidPermission::ManageDocuments => "MANAGE_DOCUMENTS",
            AndroidPermission::ManageExternalStorage => "MANAGE_EXTERNAL_STORAGE",
            AndroidPermission::ManageMedia => "MANAGE_MEDIA",
            AndroidPermission::ManageOngoingCalls => "MANAGE_ONGOING_CALLS",
            AndroidPermission::ManageOwnCalls => "MANAGE_OWN_CALLS",
            AndroidPermission::MasterClear => "MASTER_CLEAR",
            AndroidPermission::MediaContentControl => "MEDIA_CONTENT_CONTROL",
            AndroidPermission::ModifyAudioSettings => "MODIFY_AUDIO_SETTINGS",
            AndroidPermission::ModifyPhoneState => "MODIFY_PHONE_STATE",
            AndroidPermission::MountFormatFilesystems => "MOUNT_FORMAT_FILESYSTEMS",
            AndroidPermission::MountUnmountFilesystems => "MOUNT_UNMOUNT_FILESYSTEMS",
            AndroidPermission::NFC => "NFC",
            AndroidPermission::NFCPreferredPatmentInfo => "NFC_PREFERRED_PAYMENT_INFO",
            AndroidPermission::NFCTransactionEvent => "NFC_TRANSACTION_EVENT",
            AndroidPermission::PackageUsageStats => "PACKAGE_USAGE_STATS",
            AndroidPermission::PersistentActivity => "PERSISTENT_ACTIVITY",
            AndroidPermission::ProcessOutgoingCalls => "PROCESS_OUTGOING_CALLS",
            AndroidPermission::QueryAllPackages => "QUERY_ALL_PACKAGES",
            AndroidPermission::ReadCalendar => "READ_CALENDAR",
            AndroidPermission::ReadCallLog => "READ_CALL_LOG",
            AndroidPermission::ReadContacts => "READ_CONTACTS",
            AndroidPermission::ReadExternalStorag => "READ_EXTERNAL_STORAG",
            AndroidPermission::ReadInputState => "READ_INPUT_STATE",
            AndroidPermission::ReadLogs => "READ_LOGS",
            AndroidPermission::ReadPhoneNumbers => "READ_PHONE_NUMBERS",
            AndroidPermission::ReadPhoneState => "READ_PHONE_STATE",
            AndroidPermission::ReadPrecisePhoneState => "READ_PRECISE_PHONE_STATE",
            AndroidPermission::ReadSMS => "READ_SMS",
            AndroidPermission::ReadSyncSettings => "READ_SYNC_SETTINGS",
            AndroidPermission::ReadSyncStats => "READ_SYNC_STATS",
            AndroidPermission::ReadVoicemail => "READ_VOICEMAIL",
            AndroidPermission::Reboot => "REBOOT",
            AndroidPermission::ReceiveBootCompleted => "RECEIVE_BOOT_COMPLETED",
            AndroidPermission::ReceiveMMS => "RECEIVE_MMS",
            AndroidPermission::ReceiveSMS => "RECEIVE_SMS",
            AndroidPermission::ReceiveWapPush => "RECEIVE_WAP_PUSH",
            AndroidPermission::RecordAudio => "RECORD_AUDIO",
            AndroidPermission::ReorderTasks => "REORDER_TASKS",
            AndroidPermission::RequestCompanionProfileWatch => "REQUEST_COMPANION_PROFILE_WATCH",
            AndroidPermission::RequestCompanionRunInBackground => "REQUEST_COMPANION_RUN_IN_BACKGROUND",
            AndroidPermission::RequestCompanionStartForegroundServicesFromBackground => "REQUEST_COMPANION_START_FOREGROUND_SERVICES_FROM_BACKGROUND",
            AndroidPermission::RequestCompanionUseDataInBackground => "REQUEST_COMPANION_USE_DATA_IN_BACKGROUND",
            AndroidPermission::RequestDeletePackages => "REQUEST_DELETE_PACKAGES",
            AndroidPermission::RequestIgnoreBatteryOptimizations => "REQUEST_IGNORE_BATTERY_OPTIMIZATIONS",
            AndroidPermission::RequestInstallPackages => "REQUEST_INSTALL_PACKAGES",
            AndroidPermission::RequestObserveCompanionDevicePresence => "REQUEST_OBSERVE_COMPANION_DEVICE_PRESENCE",
            AndroidPermission::RequestPasswordComplexity => "REQUEST_PASSWORD_COMPLEXITY",
            AndroidPermission::RestartPackages => "RESTART_PACKAGES",
            AndroidPermission::ScheduleExactAlarm => "SCHEDULE_EXACT_ALARM",
            AndroidPermission::SendRespondViaMessage => "SEND_RESPOND_VIA_MESSAGE",
            AndroidPermission::SendSMS => "SEND_SMS",
            AndroidPermission::SetAlarm => "SET_ALARM",
            AndroidPermission::SetAlwaysFinish => "SET_ALWAYS_FINISH",
            AndroidPermission::SetAnimationScale => "SET_ANIMATION_SCALE",
            AndroidPermission::SetDebugApp => "SET_DEBUG_APP",
            AndroidPermission::SetPreferredApplications => "SET_PREFERRED_APPLICATIONS",
            AndroidPermission::SetProcessLimit => "SET_PROCESS_LIMIT",
            AndroidPermission::SetTime => "SET_TIME",
            AndroidPermission::SetTimeZone => "SET_TIME_ZONE",
            AndroidPermission::SetWallpaper => "SET_WALLPAPER",
            AndroidPermission::SetWallpaperHints => "SET_WALLPAPER_HINTS",
            AndroidPermission::SignalPersisteneProcesses => "SIGNAL_PERSISTENT_PROCESSES",
            AndroidPermission::SMSFinancialTransactions => "SMS_FINANCIAL_TRANSACTIONS",
            AndroidPermission::StartForegroundServicesFromBackground => "START_FOREGROUND_SERVICES_FROM_BACKGROUND",
            AndroidPermission::StartViewPermissionUsage => "START_VIEW_PERMISSION_USAGE",
            AndroidPermission::StatusBar => "STATUS_BAR",
            AndroidPermission::SystemAlertWindow => "SYSTEM_ALERT_WINDOW",
            AndroidPermission::TransmitIr => "TRANSMIT_IR",
            AndroidPermission::UninstallShotycut => "UNINSTALL_SHORTCUT",
            AndroidPermission::UpdateDeviceStats => "UPDATE_DEVICE_STATS",
            AndroidPermission::UpdatePackagesWithoutUserAction => "UPDATE_PACKAGES_WITHOUT_USER_ACTION",
            AndroidPermission::UseBiometric => "USE_BIOMETRIC",
            AndroidPermission::UseFingerprint => "USE_FINGERPRINT",
            AndroidPermission::UseFullScreenIntent => "USE_FULL_SCREEN_INTENT",
            AndroidPermission::UseIccAuthWithDeviceIdentifier => "USE_ICC_AUTH_WITH_DEVICE_IDENTIFIER",
            AndroidPermission::UseSip => "USE_SIP",
            AndroidPermission::UwbRanging => "UWB_RANGING",
            AndroidPermission::Vibrate => "VIBRATE",
            AndroidPermission::WakeLock => "WAKE_LOCK",
            AndroidPermission::WriteApnSettings => "WRITE_APN_SETTINGS",
            AndroidPermission::WriteCalendar => "WRITE_CALENDAR",
            AndroidPermission::WriteCallLog => "WRITE_CALL_LOG",
            AndroidPermission::WriteContacts => "WRITE_CONTACTS",
            AndroidPermission::WriteExternalStorage => "WRITE_EXTERNAL_STORAGE",
            AndroidPermission::WriteGservices => "WRITE_GSERVICES",
            AndroidPermission::WriteSecureSettings => "WRITE_SECURE_SETTINGS",
            AndroidPermission::WriteSettings => "WRITE_SETTINGS",
            AndroidPermission::WriteSyncSettings => "WRITE_SYNC_SETTINGS",
            AndroidPermission::WriteVoicemail => "WRITE_VOICEMAIL",
        }
    }

    /// The text that the platform knows the value by, as an owned string.
    pub fn to_string(&self) -> (s: String)
        ensures
            s@ == self.name(),
    {
        self.as_str().to_owned()
    }

    /// The permission's full name: the platform's namespace, a dot, and the
    /// permission's own name.
    pub open spec fn full_name(self) -> Seq<char> {
        "android.permission."@ + self.name()
    }

    /// The full name of the permission, as a manifest declares it.
    pub fn get_full_permission(&self) -> (full: String)
        ensures
            full@ == self.full_name(),
    {
        concat2("android.permission.", self.as_str())
    }

    /// Different permissions have different names.
    pub proof fn lemma_name_is_injective(self, other: AndroidPermission)
        requires
            self.name() == other.name(),
        ensures
            self == other,
    {
        reveal_strlit("ACCEPT_HANDOVER");
        reveal_strlit("ACCESS_BACKGROUND_LOCATION");
        reveal_strlit("ACCESS_BLOBS_ACROSS_USERS");
        reveal_strlit("ACCESS_CHECKIN_PROPERTIES");
        reveal_strlit("ACCESS_COARSE_LOCATION");
        reveal_strlit("ACCESS_FINE_LOCATION");
        reveal_strlit("ACCESS_LOCATION_EXTRA_COMMANDS");
        reveal_strlit("ACCESS_MEDIA_LOCATION");
        reveal_strlit("ACCESS_NETWORK_STATE");
        reveal_strlit("ACCESS_NOTIFICATION_POLICY");
        reveal_strlit("ACCESS_WIFI_STATE");
        reveal_strlit("ACCOUNT_MANAGER");
        reveal_strlit("ACTIVITY_RECOGNITION");
        reveal_strlit("ADD_VOICEMAIL");
        reveal_strlit("ANSWER_PHONE_CALLS");
        reveal_strlit("BATTERY_STATS");
        reveal_strlit("BIND_ACCESSIBILITY_SERVICE");
        reveal_strlit("BIND_APPWIDGET");
        reveal_strlit("BIND_AUTOFILL_SERVICE");
        reveal_strlit("BIND_CALL_REDIRECTION_SERVICE");
        reveal_strlit("BIND_CARRIER_MESSAGING_CLIENT_SERVICE");
        reveal_strlit("BIND_CARRIER_MESSAGING_SERVICE");
        reveal_strlit("BIND_CARRIER_SERVICES");
        reveal_strlit("BIND_CHOOSER_TARGET_SERVICE");
        reveal_strlit("BIND_COMPANION_DEVICE_SERVICE");
        reveal_strlit("BIND_CONDITION_PROVIDER_SERVICE");
        reveal_strlit("BIND_CONTROLS");
        reveal_strlit("BIND_DEVICE_ADMIN");
        reveal_strlit("BIND_DREAM_SERVICE");
        reveal_strlit("BIND_INCALL_SERVICE");
        reveal_strlit("BIND_INPUT_METHOD");
        reveal_strlit("BIND_MIDI_DEVICE_SERVICE");
        reveal_strlit("BIND_NFC_SERVICE");
        reveal_strlit("BIND_NOTIFICATION_LISTENER_SERVICE");
        reveal_strlit("BIND_PRINT_SERVICE");
        reveal_strlit("BIND_QUICK_ACCESS_WALLET_SERVICE");
        reveal_strlit("BIND_QUICK_SETTINGS_TILE");
        reveal_strlit("BIND_REMOTEVIEWS");
        reveal_strlit("BIND_SCREENING_SERVICE");
        reveal_strlit("BIND_TELECOM_CONNECTION_SERVICE");
        reveal_strlit("BIND_TEXT_SERVICE");
        reveal_strlit("BIND_TV_INPUT");
        reveal_strlit("BIND_VISUAL_VOICEMAIL_SERVICE");
        reveal_strlit("BIND_VOICE_INTERACTION");
        reveal_strlit("BIND_VPN_SERVICE");
        reveal_strlit("BIND_VR_LISTENER_SERVICE");
        reveal_strlit("BIND_WALLPAPER");
        reveal_strlit("BLUETOOTH");
        reveal_strlit("BLUETOOTH_ADMIN");
        reveal_strlit("BLUETOOTH_ADVERTISE");
        reveal_strlit("BLUETOOTH_CONNECT");
        reveal_strlit("BLUETOOTH_PRIVILEGED");
        reveal_strlit("BLUETOOTH_SCAN");
        reveal_strlit("BODY_SENSORS");
        reveal_strlit("BROADCAST_PACKAGE_REMOVED");
        reveal_strlit("BROADCAST_SMS");
        reveal_strlit("BROADCAST_STICKY");
        reveal_strlit("BROADCAST_WAP_PUSH");
        reveal_strlit("CALL_COMPANION_APP");
        reveal_strlit("CALL_PHONE");
        reveal_strlit("CALL_PRIVILEGED");
        reveal_strlit("CAMERA");
        reveal_strlit("CAPTURE_AUDIO_OUTPUT");
        reveal_strlit("CHANGE_COMPONENT_ENABLED_STATE");
        reveal_strlit("CHANGE_CONFIGURATION");
        reveal_strlit("CHANGE_NETWORK_STATE");
        reveal_strlit("CHANGE_WIFI_MULTICAST_STATE");
        reveal_strlit("CHANGE_WIFI_STATE");
        reveal_strlit("CLEAR_APP_CACHE");
        reveal_strlit("CONTROL_LOCATION_UPDATES");
        reveal_strlit("DELETE_CACHE_FILES");
        reveal_strlit("DELETE_PACKAGES");
        reveal_strlit("DIAGNOSTIC");
        reveal_strlit("DISABLE_KEYGUARD");
        reveal_strlit("DUMP");
        reveal_strlit("EXPAND_STATUS_BAR");
        reveal_strlit("FACTORY_TEST");
        reveal_strlit("FOREGROUND_SERVICE");
        reveal_strlit("GET_ACCOUNTS");
        reveal_strlit("GET_ACCOUNTS_PRIVILEGED");
        reveal_strlit("GET_PACKAGE_SIZE");
        reveal_strlit("GET_TASKS");
        reveal_strlit("GLOBAL_SEARCH");
        reveal_strlit("HIDE_OVERLAY_WINDOWS");
        reveal_strlit("HIGH_SAMPLING_RATE_SENSORS");
        reveal_strlit("INSTALL_LOCATION_PROVIDER");
        reveal_strlit("INSTALL_PACKAGES");
        reveal_strlit("INSTALL_SHORTCUT");
        reveal_strlit("INSTANT_APP_FOREGROUND_SERVICE");
        reveal_strlit("INTERACT_ACROSS_PROFILES");
        reveal_strlit("INTERNET");
        reveal_strlit("KILL_BACKGROUND_PROCESSES");
        reveal_strlit("LAUNCH_MULTI_PANE_SETTINGS_DEEP_LINK");
        reveal_strlit("LOADER_USAGE_STATS");
        reveal_strlit("LOCATION_HARDWARE");
        reveal_strlit("MANAGE_DOCUMENTS");
        reveal_strlit("MANAGE_EXTERNAL_STORAGE");
        reveal_strlit("MANAGE_MEDIA");
        reveal_strlit("MANAGE_ONGOING_CALLS");
        reveal_strlit("MANAGE_OWN_CALLS");
        reveal_strlit("MASTER_CLEAR");
        reveal_strlit("MEDIA_CONTENT_CONTROL");
        reveal_strlit("MODIFY_AUDIO_SETTINGS");
        reveal_strlit("MODIFY_PHONE_STATE");
        reveal_strlit("MOUNT_FORMAT_FILESYSTEMS");
        reveal_strlit("MOUNT_UNMOUNT_FILESYSTEMS");
        reveal_strlit("NFC");
        reveal_strlit("NFC_PREFERRED_PAYMENT_INFO");
        reveal_strlit("NFC_TRANSACTION_EVENT");
        reveal_strlit("PACKAGE_USAGE_STATS");
        reveal_strlit("PERSISTENT_ACTIVITY");
        reveal_strlit("PROCESS_OUTGOING_CALLS");
        reveal_strlit("QUERY_ALL_PACKAGES");
        reveal_strlit("READ_CALENDAR");
        reveal_strlit("READ_CALL_LOG");
        reveal_strlit("READ_CONTACTS");
        reveal_strlit("READ_EXTERNAL_STORAG");
        reveal_strlit("READ_INPUT_STATE");
        reveal_strlit("READ_LOGS");
        reveal_strlit("READ_PHONE_NUMBERS");
        reveal_strlit("READ_PHONE_STATE");
        reveal_strlit("READ_PRECISE_PHONE_STATE");
        reveal_strlit("READ_SMS");
        reveal_strlit("READ_SYNC_SETTINGS");
        reveal_strlit("READ_SYNC_STATS");
        reveal_strlit("READ_VOICEMAIL");
        reveal_strlit("REBOOT");
        reveal_strlit("RECEIVE_BOOT_COMPLETED");
        reveal_strlit("RECEIVE_MMS");
        reveal_strlit("RECEIVE_SMS");
        reveal_strlit("RECEIVE_WAP_PUSH");
        reveal_strlit("RECORD_AUDIO");
        reveal_strlit("REORDER_TASKS");
        reveal_strlit("REQUEST_COMPANION_PROFILE_WATCH");
        reveal_strlit("REQUEST_COMPANION_RUN_IN_BACKGROUND");
        reveal_strlit("REQUEST_COMPANION_START_FOREGROUND_SERVICES_FROM_BACKGROUND");
        reveal_strlit("REQUEST_COMPANION_USE_DATA_IN_BACKGROUND");
        reveal_strlit("REQUEST_DELETE_PACKAGES");
        reveal_strlit("REQUEST_IGNORE_BATTERY_OPTIMIZATIONS");
        reveal_strlit("REQUEST_INSTALL_PACKAGES");
        reveal_strlit("REQUEST_OBSERVE_COMPANION_DEVICE_PRESENCE");
        reveal_strlit("REQUEST_PASSWORD_COMPLEXITY");
        reveal_strlit("RESTART_PACKAGES");
        reveal_strlit("SCHEDULE_EXACT_ALARM");
        reveal_strlit("SEND_RESPOND_VIA_MESSAGE");
        reveal_strlit("SEND_SMS");
        reveal_strlit("SET_ALARM");
        reveal_strlit("SET_ALWAYS_FINISH");
        reveal_strlit("SET_ANIMATION_SCALE");
        reveal_strlit("SET_DEBUG_APP");
        reveal_strlit("SET_PREFERRED_APPLICATIONS");
        reveal_strlit("SET_PROCESS_LIMIT");
        reveal_strlit("SET_TIME");
        reveal_strlit("SET_TIME_ZONE");
        reveal_strlit("SET_WALLPAPER");
        reveal_strlit("SET_WALLPAPER_HINTS");
        reveal_strlit("SIGNAL_PERSISTENT_PROCESSES");
        reveal_strlit("SMS_FINANCIAL_TRANSACTIONS");
        reveal_strlit("START_FOREGROUND_SERVICES_FROM_BACKGROUND");
        reveal_strlit("START_VIEW_PERMISSION_USAGE");
        reveal_strlit("STATUS_BAR");
        reveal_strlit("SYSTEM_ALERT_WINDOW");
        reveal_strlit("TRANSMIT_IR");
        reveal_strlit("UNINSTALL_SHORTCUT");
        reveal_strlit("UPDATE_DEVICE_STATS");
        reveal_strlit("UPDATE_PACKAGES_WITHOUT_USER_ACTION");
        reveal_strlit("USE_BIOMETRIC");
        reveal_strlit("USE_FINGERPRINT");
        reveal_strlit("USE_FULL_SCREEN_INTENT");
        reveal_strlit("USE_ICC_AUTH_WITH_DEVICE_IDENTIFIER");
        reveal_strlit("USE_SIP");
        reveal_strlit("UWB_RANGING");
        reveal_strlit("VIBRATE");
        reveal_strlit("WAKE_LOCK");
        reveal_strlit("WRITE_APN_SETTINGS");
        reveal_strlit("WRITE_CALENDAR");
        reveal_strlit("WRITE_CALL_LOG");
        reveal_strlit("WRITE_CONTACTS");
        reveal_strlit("WRITE_EXTERNAL_STORAGE");
        reveal_strlit("WRITE_GSERVICES");
        reveal_strlit("WRITE_SECURE_SETTINGS");
        reveal_strlit("WRITE_SETTINGS");
        reveal_strlit("WRITE_SYNC_SETTINGS");
        reveal_strlit("WRITE_VOICEMAIL");
        let mine = self.name();
        let theirs = other.name();
        assert(mine.len() == theirs.len());
        assert(mine[0] == theirs[0]);
        assert(mine[7] == theirs[7]);
        assert(mine[8] == theirs[8]);
        assert(mine[9] == theirs[9]);
    }

    /// Different permissions have different full names.
    pub proof fn lemma_full_name_is_injective(self, other: AndroidPermission)
        requires
            self.full_name() == other.full_name(),
        ensures
            self == other,
    {
        let prefix = "android.permission."@;
        let n = prefix.len() as int;
        assert(self.full_name().subrange(n, n + self.name().len()) == self.name());
        assert(other.full_name().subrange(n, n + other.name().len()) == other.name());
        assert(self.full_name().len() == n + self.name().len());
        assert(other.full_name().len() == n + other.name().len());
        self.lemma_name_is_injective(other);
    }
}

} // verus!
