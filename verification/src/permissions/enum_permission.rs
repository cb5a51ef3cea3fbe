#![allow(non_camel_case_types)]
//! Android permissions under the names the platform gives them.
use vstd::prelude::*;

verus! {

/// A permission of the Android platform, named as the platform names it.
#[derive(Debug, Clone, Copy, PartialEq, Eq, Structural)]
pub enum Permissions {
    /// Allows a calling app to continue a call which was started in another app
    ACCEPT_HANDOVER,
    /// Allows an app to access location in the background
    ACCESS_BACKGROUND_LOCATION,
    /// Allows an application to access data blobs across users
    ACCESS_BLOBS_ACROSS_USERS,
    /// Allows read/write access to the "properties" table in the checkin database,
    /// to change values that get uploaded
    ACCESS_CHECKIN_PROPERTIES,
    /// Allows an app to access approximate location
    ACCESS_COARSE_LOCATION,
    /// Allows an app to access precise location
    ACCESS_FINE_LOCATION,
    /// Allows an application to access extra location provider commands
    ACCESS_LOCATION_EXTRA_COMMANDS,
    /// Allows an application to access any geographic locations persisted in the
    /// user's shared collection.
    ACCESS_MEDIA_LOCATION,
    /// Allows applications to access information about networks
    ACCESS_NETWORK_STATE,
    /// Marker permission for applications that wish to access notification policy
    ACCESS_NOTIFICATION_POLICY,
    /// Allows applications to access information about Wi-Fi networks
    ACCESS_WIFI_STATE,
    /// Allows applications to call into AccountAuthenticators
    ACCOUNT_MANAGER,
    /// Allows an application to recognize physical activity
    ACTIVITY_RECOGNITION,
    /// Allows an application to add voicemails into the system
    ADD_VOICEMAIL,
    /// Allows the app to answer an incoming phone call
    ANSWER_PHONE_CALLS,
    /// Allows an application to collect battery statistics
    ///
    /// Protection level: signature|privileged|development
    BATTERY_STATS,
    /// Must be required by an [`AccessibilityService`], to ensure that only the
    /// system can bind to it
    ///
    /// [AccessibilityService]::(https://developer.android.com/reference/android/accessibilityservice/AccessibilityService)
    BIND_ACCESSIBILITY_SERVICE,
    /// Allows an application to tell the AppWidget service which application can
    /// access AppWidget's data
    BIND_APPWIDGET,
    /// Must be required by a [`AutofillService`], to ensure that only the system
    /// can bind to it
    ///
    /// [AutofillService]::(https://developer.android.com/reference/android/service/autofill/AutofillService)
    BIND_AUTOFILL_SERVICE,
    /// Must be required by a [`CallRedirectionService`], to ensure that only the
    /// system can bind to it
    ///
    /// [CallRedirectionService]::(https://developer.android.com/reference/android/telecom/CallRedirectionService)
    BIND_CALL_REDIRECTION_SERVICE,
    /// A subclass of [`CarrierMessagingClientService`] must be protected with
    /// this permission
    ///
    /// [CarrierMessagingClientService]::(https://developer.android.com/reference/android/service/carrier/CarrierMessagingClientService)
    BIND_CARRIER_MESSAGING_CLIENT_SERVICE,
    /// This constant was deprecated in API level 23. Use [`BIND_CARRIER_SERVICES`]
    /// instead
    ///
    /// [BIND_CARRIER_SERVICES]::(https://developer.android.com/reference/android/Manifest.permission#BIND_CARRIER_SERVICES)
    BIND_CARRIER_MESSAGING_SERVICE,
    /// The system process that is allowed to bind to services in carrier apps
    /// will have this permission
    BIND_CARRIER_SERVICES,
    /// This constant was deprecated in API level 30. For publishing direct share
    /// targets, please follow the instructions in
    /// https://developer.android.com/training/sharing/receive.html#providing-direct-share-targets instead
    BIND_CHOOSER_TARGET_SERVICE,
    /// Must be required by any [`CompanionDeviceServices`] to ensure that only the
    /// system can bind to it
    ///
    /// [CompanionDeviceServices]::(https://developer.android.com/reference/android/companion/CompanionDeviceService)
    BIND_COMPANION_DEVICE_SERVICE,
    /// Must be required by a [`ConditionProviderService`], to ensure that only the
    /// system can bind to it
    ///
    /// [ConditionProviderService]::(https://developer.android.com/reference/android/service/notification/ConditionProviderServic)
    BIND_CONDITION_PROVIDER_SERVICE,
    /// Allows SystemUI to request third party controls
    BIND_CONTROLS,
    /// Must be required by device administration receiver, to ensure that only the
    /// system can interact with it
    BIND_DEVICE_ADMIN,
    /// Must be required by an [`DreamService`], to ensure that only the system can
    /// bind to it.
    ///
    /// [DreamService]::(https://developer.android.com/reference/android/service/dreams/DreamService)
    BIND_DREAM_SERVICE,
    /// Must be required by a [`InCallService`], to ensure that only the system can
    /// bind to it.
    ///
    /// [InCallService]::(https://developer.android.com/reference/android/telecom/InCallService)
    BIND_INCALL_SERVICE,
    /// Must be required by an [`InputMethodService`], to ensure that only the system
    /// can bind to it.
    ///
    /// [InputMethodService]::(https://developer.android.com/reference/android/inputmethodservice/InputMethodService)
    BIND_INPUT_METHOD,
    /// Must be required by an [`MidiDeviceService`], to ensure that only the system
    /// can bind to it.
    ///
    /// [MidiDeviceService]::(https://developer.android.com/reference/android/media/midi/MidiDeviceService)
    BIND_MIDI_DEVICE_SERVICE,
    /// Must be required by a [`HostApduService`] or [`OffHostApduService`] to ensure
    /// that only the system can bind to it.
    ///
    /// [HostApduService]::(https://developer.android.com/reference/android/nfc/cardemulation/HostApduService)
    /// [OffHostApduService]::(https://developer.android.com/reference/android/nfc/cardemulation/OffHostApduService)
    BIND_NFC_SERVICE,
    /// Must be required by an [`NotificationListenerService`], to ensure that only
    /// the system can bind to it.
    ///
    /// [NotificationListenerService]::(https://developer.android.com/reference/android/service/notification/NotificationListenerService)
    BIND_NOTIFICATION_LISTENER_SERVICE,
    /// Must be required by a [`PrintService`], to ensure that only the system can
    /// bind to it.
    ///
    /// [PrintService]::(https://developer.android.com/reference/android/printservice/PrintService)
    BIND_PRINT_SERVICE,
    /// Must be required by a [`QuickAccessWalletService`] to ensure that only the
    /// system can bind to it.
    ///
    /// [QuickAccessWalletService]::(https://developer.android.com/reference/android/service/quickaccesswallet/QuickAccessWalletService)
    BIND_QUICK_ACCESS_WALLET_SERVICE,
    /// Allows an application to bind to third party quick settings tiles.
    BIND_QUICK_SETTINGS_TILE,
    /// Must be required by a [`RemoteViewsService`], to ensure that only the system
    /// can bind to it.
    ///
    /// [RemoteViewsService]::(https://developer.android.com/reference/android/widget/RemoteViewsService)
    BIND_REMOTEVIEWS,
    /// Must be required by a [`CallScreeningService`], to ensure that only the system
    /// can bind to it.
    ///
    /// [CallScreeningService]::(https://developer.android.com/reference/android/telecom/CallScreeningService)
    BIND_SCREENING_SERVICE,
    /// Must be required by a [`ConnectionService`], to ensure that only the system can
    /// bind to it.
    ///
    /// [ConnectionService]::(https://developer.android.com/reference/android/telecom/ConnectionService)
    BIND_TELECOM_CONNECTION_SERVICE,
    /// Must be required by a TextService (e.g. SpellCheckerService) to ensure that
    /// only the system can bind to it.
    BIND_TEXT_SERVICE,
    /// Must be required by a [`TvInputService`] to ensure that only the system can
    /// bind to it.
    ///
    /// [TvInputService]::(https://developer.android.com/reference/android/media/tv/TvInputService)
    BIND_TV_INPUT,
    /// Must be required by a link [`VisualVoicemailService`] to ensure that only the
    /// system can bind to it.
    ///
    /// [VisualVoicemailService]::(https://developer.android.com/reference/android/telephony/VisualVoicemailService)
    BIND_VISUAL_VOICEMAIL_SERVICE,
    /// Must be required by a [`VoiceInteractionService`], to ensure that only the
    /// system can bind to it.
    ///
    /// [VoiceInteractionService]::(https://developer.android.com/reference/android/service/voice/VoiceInteractionService)
    BIND_VOICE_INTERACTION,
    /// Must be required by a [`VpnService`], to ensure that only the system can bind
    /// to it.
    ///
    /// [VpnService]::(https://developer.android.com/reference/android/net/VpnService)
    BIND_VPN_SERVICE,
    /// Must be required by an [`VrListenerService`], to ensure that only the system
    /// can bind to it.
    ///
    /// [VrListenerService]::(https://developer.android.com/reference/android/service/vr/VrListenerService)
    BIND_VR_LISTENER_SERVICE,
    /// Must be required by a [`WallpaperService`], to ensure that only the system can
    /// bind to it.
    ///
    /// [WallpaperService]::(https://developer.android.com/reference/android/service/wallpaper/WallpaperService)
    BIND_WALLPAPER,
    /// Allows applications to connect to paired bluetooth devices
    BLUETOOTH,
    /// Allows applications to discover and pair bluetooth devices
    BLUETOOTH_ADMIN,
    /// Required to be able to advertise to nearby Bluetooth devices
    BLUETOOTH_ADVERTISE,
    /// Required to be able to connect to paired Bluetooth devices
    BLUETOOTH_CONNECT,
    /// Allows applications to pair bluetooth devices without user interaction, and to
    /// allow or disallow phonebook access or message access
    BLUETOOTH_PRIVILEGED,
    /// Required to be able to discover and pair nearby Bluetooth devices
    BLUETOOTH_SCAN,
    /// Allows an application to access data from sensors that the user uses to measure
    /// what is happening inside their body, such as heart rate
    BODY_SENSORS,
    /// Allows an application to broadcast a notification that an application package
    /// has been removed
    BROADCAST_PACKAGE_REMOVED,
    /// Allows an application to broadcast an SMS receipt notification
    BROADCAST_SMS,
    /// Allows an application to broadcast sticky intents
    BROADCAST_STICKY,
    /// Allows an application to broadcast a WAP PUSH receipt notification
    BROADCAST_WAP_PUSH,
    /// Allows an app which implements the [`InCallService`] API to be eligible to be
    /// enabled as a calling companion app
    ///
    /// [InCallService]::(https://developer.android.com/reference/android/telecom/InCallService)
    CALL_COMPANION_APP,
    /// Allows an application to initiate a phone call without going through the Dialer
    /// user interface for the user to confirm the call
    CALL_PHONE,
    /// Allows an application to call any phone number, including emergency numbers,
    /// without going through the Dialer user interface for the user to confirm the
    /// call being placed
    CALL_PRIVILEGED,
    /// Required to be able to access the camera device
    CAMERA,
    /// Allows an application to capture audio output
    CAPTURE_AUDIO_OUTPUT,
    /// Allows an application to change whether an application component
    /// (other than its own) is enabled or not
    CHANGE_COMPONENT_ENABLED_STATE,
    /// Allows an application to modify the current configuration, such as locale
    CHANGE_CONFIGURATION,
    /// Allows applications to change network connectivity state
    CHANGE_NETWORK_STATE,
    /// Allows applications to enter Wi-Fi Multicast mode
    CHANGE_WIFI_MULTICAST_STATE,
    /// Allows applications to change Wi-Fi connectivity state
    CHANGE_WIFI_STATE,
    /// Allows an application to clear the caches of all installed applications on
    /// the device
    CLEAR_APP_CACHE,
    /// Allows enabling/disabling location update notifications from the radio
    CONTROL_LOCATION_UPDATES,
    /// Old permission for deleting an app's cache files, no longer used, but signals
    /// for us to quietly ignore calls instead of throwing an exception.
    DELETE_CACHE_FILES,
    /// Allows an application to delete packages
    DELETE_PACKAGES,
    /// Allows applications to RW to diagnostic resources
    DIAGNOSTIC,
    /// Allows applications to disable the keyguard if it is not secure
    DISABLE_KEYGUARD,
    /// Allows an application to retrieve state dump information from system services
    DUMP,
    /// Allows an application to expand or collapse the status bar
    EXPAND_STATUS_BAR,
    /// Run as a manufacturer test application, running as the root user
    FACTORY_TEST,
    /// Allows a regular application to use [`Service.startForeground`]
    ///
    /// [Service.startForeground]::(https://developer.android.com/reference/android/app/Service#startForeground(int,%20android.app.Notification))
    FOREGROUND_SERVICE,
    /// Allows access to the list of accounts in the Accounts Service
    GET_ACCOUNTS,
    /// Allows access to the list of accounts in the Accounts Service
    GET_ACCOUNTS_PRIVILEGED,
    /// Allows an application to find out the space used by any package
    GET_PACKAGE_SIZE,
    /// This constant was deprecated in API level 21. No longer enforced
    GET_TASKS,
    /// This permission can be used on content providers to allow the global search
    /// system to access their data
    GLOBAL_SEARCH,
    /// Allows an app to prevent non-system-overlay windows from being drawn on top
    /// of it
    HIDE_OVERLAY_WINDOWS,
    /// Allows an app to access sensor data with a sampling rate greater than 200 Hz
    HIGH_SAMPLING_RATE_SENSORS,
    /// Allows an application to install a location provider into the Location Manager
    INSTALL_LOCATION_PROVIDER,
    /// Allows an application to install packages
    INSTALL_PACKAGES,
    /// Allows an application to install a shortcut in Launcher
    INSTALL_SHORTCUT,
    /// Allows an instant app to create foreground services
    INSTANT_APP_FOREGROUND_SERVICE,
    /// Allows interaction across profiles in the same profile group
    INTERACT_ACROSS_PROFILES,
    /// Allows applications to open network sockets
    INTERNET,
    /// Allows an application to call [`ActivityManager.killBackgroundProcesses(String)`]
    ///
    /// [ActivityManager.killBackgroundProcesses(String)]::(https://developer.android.com/reference/android/app/ActivityManager#killBackgroundProcesses(java.lang.String))
    KILL_BACKGROUND_PROCESSES,
    /// An application needs this permission for
    /// [`Settings.ACTION_SETTINGS_EMBED_DEEP_LINK_ACTIVITY`] to show its [`Activity`]
    /// embedded in Settings app.
    ///
    /// [Settings.ACTION_SETTINGS_EMBED_DEEP_LINK_ACTIVITY]::(https://developer.android.com/reference/android/provider/Settings#ACTION_SETTINGS_EMBED_DEEP_LINK_ACTIVITY)
    /// [Activity]::(https://developer.android.com/reference/android/app/Activity)
    LAUNCH_MULTI_PANE_SETTINGS_DEEP_LINK,
    /// Allows a data loader to read a package's access logs
    LOADER_USAGE_STATS,
    /// Allows an application to use location features in hardware, such as the
    /// geofencing api
    LOCATION_HARDWARE,
    /// Allows an application to manage access to documents, usually as part of a
    /// document picker
    MANAGE_DOCUMENTS,
    /// Allows an application a broad access to external storage in scoped storage
    MANAGE_EXTERNAL_STORAGE,
    /// Allows an application to modify and delete media files on this device or any
    /// connected storage device without user confirmation
    MANAGE_MEDIA,
    /// Allows to query ongoing call details and manage ongoing calls
    ///
    /// Protection level: signature|appop
    MANAGE_ONGOING_CALLS,
    /// Allows a calling application which manages its own calls through the
    /// self-managed [`ConnectionService`] APIs
    ///
    /// [ConnectionService]::(https://developer.android.com/reference/android/telecom/ConnectionService)
    MANAGE_OWN_CALLS,
    /// Not for use by third-party applications
    MASTER_CLEAR,
    /// Allows an application to know what content is playing and control its
    /// playback
    MEDIA_CONTENT_CONTROL,
    /// Allows an application to modify global audio settings
    MODIFY_AUDIO_SETTINGS,
    /// Allows modification of the telephony state - power on, mmi, etc
    MODIFY_PHONE_STATE,
    /// Allows formatting file systems for removable storage
    MOUNT_FORMAT_FILESYSTEMS,
    /// Allows mounting and unmounting file systems for removable storage
    MOUNT_UNMOUNT_FILESYSTEMS,
    /// Allows applications to perform I/O operations over NFC
    NFC,
    /// Allows applications to receive NFC preferred payment service information
    NFC_PREFERRED_PAYMENT_INFO,
    /// Allows applications to receive NFC transaction events
    NFC_TRANSACTION_EVENT,
    /// Allows an application to collect component usage statistics
    ///
    /// Declaring the permission implies intention to use the API and the user of
    /// the device can grant permission through the Settings application
    PACKAGE_USAGE_STATS,
    /// This constant was deprecated in API level 15. This functionality will be
    /// removed in the future; please do not use. Allow an application to make
    /// its activities persistent
    PERSISTENT_ACTIVITY,
    /// This constant was deprecated in API level 29. Applications should use
    /// [`CallRedirectionService`] instead of the [`Intent.ACTION_NEW_OUTGOING_CALL`]
    /// broadcast.
    ///
    /// [CallRedirectionService]::(https://developer.android.com/reference/android/telecom/CallRedirectionService)
    /// [Intent.ACTION_NEW_OUTGOING_CALL]::(https://developer.android.com/reference/android/content/Intent#ACTION_NEW_OUTGOING_CALL)
    PROCESS_OUTGOING_CALLS,
    /// Allows query of any normal app on the device, regardless of manifest
    /// declarations
    QUERY_ALL_PACKAGES,
    /// Allows an application to read the user's calendar data
    READ_CALENDAR,
    /// Allows an application to read the user's call log
    READ_CALL_LOG,
    /// Allows an application to read the user's contacts data
    READ_CONTACTS,
    /// Allows an application to read from external storage
    READ_EXTERNAL_STORAG,
    /// This constant was deprecated in API level 16. The API that used this
    /// permission has been removed
    READ_INPUT_STATE,
    /// Allows an application to read the low-level system log files
    READ_LOGS,
    /// Allows read access to the device's phone number(s)
    READ_PHONE_NUMBERS,
    /// Allows read only access to phone state, including the current cellular
    /// network information, the status of any ongoing calls, and a list of
    /// any [`PhoneAccounts`] registered on the device.
    ///
    /// [PhoneAccounts]::(https://developer.android.com/reference/android/telecom/PhoneAccount)
    READ_PHONE_STATE,
    /// Allows read only access to precise phone state
    READ_PRECISE_PHONE_STATE,
    /// Allows an application to read SMS messages
    READ_SMS,
    /// Allows applications to read the sync settings
    READ_SYNC_SETTINGS,
    /// Allows applications to read the sync stats
    READ_SYNC_STATS,
    /// Allows an application to read voicemails in the system
    READ_VOICEMAIL,
    /// Required to be able to reboot the device
    REBOOT,
    /// Allows an application to receive the [`Intent.ACTION_BOOT_COMPLETED`]
    /// that is broadcast after the system finishes booting.
    ///
    /// [Intent.ACTION_BOOT_COMPLETED]::(https://developer.android.com/reference/android/content/Intent#ACTION_BOOT_COMPLETED)
    RECEIVE_BOOT_COMPLETED,
    /// Allows an application to monitor incoming MMS messages
    RECEIVE_MMS,
    /// Allows an application to receive SMS messages
    RECEIVE_SMS,
    /// Allows an application to receive WAP push messages
    RECEIVE_WAP_PUSH,
    /// Allows an application to record audio
    RECORD_AUDIO,
    /// Allows an application to change the Z-order of tasks
    REORDER_TASKS,
    /// Allows app to request to be associated with a device via
    /// CompanionDeviceManager as a "watch"
    ///
    /// Protection level: normal
    REQUEST_COMPANION_PROFILE_WATCH,
    /// Allows a companion app to run in the background
    REQUEST_COMPANION_RUN_IN_BACKGROUND,
    /// Allows a companion app to start a foreground service from the background
    REQUEST_COMPANION_START_FOREGROUND_SERVICES_FROM_BACKGROUND,
    /// Allows a companion app to use data in the background
    REQUEST_COMPANION_USE_DATA_IN_BACKGROUND,
    /// Allows an application to request deleting packages
    REQUEST_DELETE_PACKAGES,
    /// Permission an application must hold in order to use
    /// [`Settings.ACTION_REQUEST_IGNORE_BATTERY_OPTIMIZATIONS`]
    ///
    /// [Settings.ACTION_REQUEST_IGNORE_BATTERY_OPTIMIZATIONS]::(https://developer.android.com/reference/android/provider/Settings#ACTION_REQUEST_IGNORE_BATTERY_OPTIMIZATIONS)
    REQUEST_IGNORE_BATTERY_OPTIMIZATIONS,
    /// Allows an application to request installing packages
    REQUEST_INSTALL_PACKAGES,
    /// Allows an application to subscribe to notifications about the presence
    /// status change of their associated companion device
    REQUEST_OBSERVE_COMPANION_DEVICE_PRESENCE,
    /// Allows an application to request the screen lock complexity and prompt
    /// users to update the screen lock to a certain complexity level
    REQUEST_PASSWORD_COMPLEXITY,
    /// This constant was deprecated in API level 15
    ///
    /// The [`ActivityManager.restartPackage(String)`] API is no longer supported.
    ///
    /// [ActivityManager.restartPackage(String)]::(https://developer.android.com/reference/android/app/ActivityManager#restartPackage(java.lang.String))
    RESTART_PACKAGES,
    /// Allows applications to use exact alarm APIs
    SCHEDULE_EXACT_ALARM,
    /// Allows an application (Phone) to send a request to other applications to
    /// handle the respond-via-message action during incoming calls.
    SEND_RESPOND_VIA_MESSAGE,
    /// Allows an application to send SMS messages
    SEND_SMS,
    /// Allows an application to broadcast an Intent to set an alarm for the user
    SET_ALARM,
    /// Allows an application to control whether activities are immediately finished
    /// when put in the background
    SET_ALWAYS_FINISH,
    /// Modify the global animation scaling factor
    SET_ANIMATION_SCALE,
    /// Configure an application for debugging
    SET_DEBUG_APP,
    /// This constant was deprecated in API level 15. No longer useful, see
    /// [`PackageManager.addPackageToPreferred(String)`] for details.
    ///
    /// [PackageManager.addPackageToPreferred(String)]::(https://developer.android.com/reference/android/content/pm/PackageManager#addPackageToPreferred(java.lang.String))
    SET_PREFERRED_APPLICATIONS,
    /// Allows an application to set the maximum number of (not needed)
    /// application processes that can be running.
    SET_PROCESS_LIMIT,
    /// Allows applications to set the system time directly
    SET_TIME,
    /// Allows applications to set the system time zone directly
    SET_TIME_ZONE,
    /// Allows applications to set the wallpaper
    SET_WALLPAPER,
    /// Allows applications to set the wallpaper hints
    SET_WALLPAPER_HINTS,
    /// Allow an application to request that a signal be sent to all persistent processes
    SIGNAL_PERSISTENT_PROCESSES,
    /// This constant was deprecated in API level 31. The API that used this permission
    /// is no longer functional
    SMS_FINANCIAL_TRANSACTIONS,
    /// Allows an application to start foreground services from the background at any time
    START_FOREGROUND_SERVICES_FROM_BACKGROUND,
    /// Allows the holder to start the permission usage screen for an app
    START_VIEW_PERMISSION_USAGE,
    /// Allows an application to open, close, or disable the status bar and its icons
    STATUS_BAR,
    /// Allows an app to create windows using the type
    /// [`WindowManager.LayoutParams.TYPE_APPLICATION_OVERLAY`], shown on top of all
    /// other apps.
    ///
    /// [WindowManager.LayoutParams.TYPE_APPLICATION_OVERLAY]::(https://developer.android.com/reference/android/view/WindowManager.LayoutParams#TYPE_APPLICATION_OVERLAY)
    SYSTEM_ALERT_WINDOW,
    /// Allows using the device's IR transmitter, if available
    TRANSMIT_IR,
    /// Don't use this permission in your app
    UNINSTALL_SHORTCUT,
    /// Allows an application to update device statistics
    UPDATE_DEVICE_STATS,
    /// Allows an application to indicate via
    /// [`PackageInstaller.SessionParams.setRequireUserAction(int)`] that user action
    /// should not be required for an app update
    ///
    /// [PackageInstaller.SessionParams.setRequireUserAction(int)]::(https://developer.android.com/reference/android/content/pm/PackageInstaller.SessionParams#setRequireUserAction(int))
    UPDATE_PACKAGES_WITHOUT_USER_ACTION,
    /// Allows an app to use device supported biometric modalities
    USE_BIOMETRIC,
    /// This constant was deprecated in API level 28. Applications should request
    /// [`USE_BIOMETRIC`] instead
    ///
    /// [USE_BIOMETRIC]::(https://developer.android.com/reference/android/Manifest.permission#USE_BIOMETRIC)
    USE_FINGERPRINT,
    /// Required for apps targeting [`Build.VERSION_CODES.Q`] that want to use
    /// [`notification full screen intents`]
    ///
    /// [Build.VERSION_CODES.Q]::(https://developer.android.com/reference/android/os/Build.VERSION_CODES#Q)
    /// [notification full screen intents]::(https://developer.android.com/reference/android/app/Notification.Builder#setFullScreenIntent(android.app.PendingIntent,%20boolean))
    USE_FULL_SCREEN_INTENT,
    /// Allows to read device identifiers and use ICC based authentication like EAP-AKA
    USE_ICC_AUTH_WITH_DEVICE_IDENTIFIER,
    /// Allows an application to use SIP service
    USE_SIP,
    /// Required to be able to range to devices using ultra-wideband
    UWB_RANGING,
    /// Allows access to the vibrator
    VIBRATE,
    /// Allows using PowerManager WakeLocks to keep processor from sleeping or screen
    /// from dimming
    WAKE_LOCK,
    /// Allows applications to write the apn settings and read sensitive fields of an
    /// existing apn settings like user and password
    WRITE_APN_SETTINGS,
    /// Allows an application to write the user's calendar data
    WRITE_CALENDAR,
    /// Allows an application to write (but not read) the user's call log data
    WRITE_CALL_LOG,
    /// Allows an application to write the user's contacts data
    WRITE_CONTACTS,
    /// Allows an application to write to external storage
    WRITE_EXTERNAL_STORAGE,
    /// Allows an application to modify the Google service map
    WRITE_GSERVICES,
    /// Allows an application to read or write the secure system settings
    WRITE_SECURE_SETTINGS,
    /// Allows an application to read or write the system settings
    WRITE_SETTINGS,
    /// Allows applications to write the sync settings
    WRITE_SYNC_SETTINGS,
    /// Allows an application to modify and remove existing voicemails in the system
    WRITE_VOICEMAIL,
}

impl Permissions {
    /// The permission's full name, namespace included.
    pub open spec fn name(self) -> Seq<char> {
        match self {
            Permissions::ACCEPT_HANDOVER => "android.permission.ACCEPT_HANDOVER"@,
            Permissions::ACCESS_BACKGROUND_LOCATION => "android.permission.ACCESS_BACKGROUND_LOCATION"@,
            Permissions::ACCESS_BLOBS_ACROSS_USERS => "android.permission.ACCESS_BLOBS_ACROSS_USERS"@,
            Permissions::ACCESS_CHECKIN_PROPERTIES => "android.permission.ACCESS_CHECKIN_PROPERTIES"@,
            Permissions::ACCESS_COARSE_LOCATION => "android.permission.ACCESS_COARSE_LOCATION"@,
            Permissions::ACCESS_FINE_LOCATION => "android.permission.ACCESS_FINE_LOCATION"@,
            Permissions::ACCESS_LOCATION_EXTRA_COMMANDS => "android.permission.ACCESS_LOCATION_EXTRA_COMMANDS"@,
            Permissions::ACCESS_MEDIA_LOCATION => "android.permission.ACCESS_MEDIA_LOCATION"@,
            Permissions::ACCESS_NETWORK_STATE => "android.permission.ACCESS_NETWORK_STATE"@,
            Permissions::ACCESS_NOTIFICATION_POLICY => "android.permission.ACCESS_NOTIFICATION_POLICY"@,
            Permissions::ACCESS_WIFI_STATE => "android.permission.ACCESS_WIFI_STATE"@,
            Permissions::ACCOUNT_MANAGER => "android.permission.ACCOUNT_MANAGER"@,
            Permissions::ACTIVITY_RECOGNITION => "android.permission.ACTIVITY_RECOGNITION"@,
            Permissions::ADD_VOICEMAIL => "android.permission.ADD_VOICEMAIL"@,
            Permissions::ANSWER_PHONE_CALLS => "android.permission.ANSWER_PHONE_CALLS"@,
            Permissions::BATTERY_STATS => "android.permission.BATTERY_STATS"@,
            Permissions::BIND_ACCESSIBILITY_SERVICE => "android.permission.BIND_ACCESSIBILITY_SERVICE"@,
            Permissions::BIND_APPWIDGET => "android.permission.BIND_APPWIDGET"@,
            Permissions::BIND_AUTOFILL_SERVICE => "android.permission.BIND_AUTOFILL_SERVICE"@,
            Permissions::BIND_CALL_REDIRECTION_SERVICE => "android.permission.BIND_CALL_REDIRECTION_SERVICE"@,
            Permissions::BIND_CARRIER_MESSAGING_CLIENT_SERVICE => "android.permission.BIND_CARRIER_MESSAGING_CLIENT_SERVICE"@,
            Permissions::BIND_CARRIER_MESSAGING_SERVICE => "android.permission.BIND_CARRIER_MESSAGING_SERVICE"@,
            Permissions::BIND_CARRIER_SERVICES => "android.permission.BIND_CARRIER_SERVICES"@,
            Permissions::BIND_CHOOSER_TARGET_SERVICE => "android.permission.BIND_CHOOSER_TARGET_SERVICE"@,
            Permissions::BIND_COMPANION_DEVICE_SERVICE => "android.permission.BIND_COMPANION_DEVICE_SERVICE"@,
            Permissions::BIND_CONDITION_PROVIDER_SERVICE => "android.permission.BIND_CONDITION_PROVIDER_SERVICE"@,
            Permissions::BIND_CONTROLS => "android.permission.BIND_CONTROLS"@,
            Permissions::BIND_DEVICE_ADMIN => "android.permission.BIND_DEVICE_ADMIN"@,
            Permissions::BIND_DREAM_SERVICE => "android.permission.BIND_DREAM_SERVICE"@,
            Permissions::BIND_INCALL_SERVICE => "android.permission.BIND_INCALL_SERVICE"@,
            Permissions::BIND_INPUT_METHOD => "android.permission.BIND_INPUT_METHOD"@,
            Permissions::BIND_MIDI_DEVICE_SERVICE => "android.permission.BIND_MIDI_DEVICE_SERVICE"@,
            Permissions::BIND_NFC_SERVICE => "android.permission.BIND_NFC_SERVICE"@,
            Permissions::BIND_NOTIFICATION_LISTENER_SERVICE => "android.permission.BIND_NOTIFICATION_LISTENER_SERVICE"@,
            Permissions::BIND_PRINT_SERVICE => "android.permission.BIND_PRINT_SERVICE"@,
            Permissions::BIND_QUICK_ACCESS_WALLET_SERVICE => "android.permission.BIND_QUICK_ACCESS_WALLET_SERVICE"@,
            Permissions::BIND_QUICK_SETTINGS_TILE => "android.permission.BIND_QUICK_SETTINGS_TILE"@,
            Permissions::BIND_REMOTEVIEWS => "android.permission.BIND_REMOTEVIEWS"@,
            Permissions::BIND_SCREENING_SERVICE => "android.permission.BIND_SCREENING_SERVICE"@,
            Permissions::BIND_TELECOM_CONNECTION_SERVICE => "android.permission.BIND_TELECOM_CONNECTION_SERVICE"@,
            Permissions::BIND_TEXT_SERVICE => "android.permission.BIND_TEXT_SERVICE"@,
            Permissions::BIND_TV_INPUT => "android.permission.BIND_TV_INPUT"@,
            Permissions::BIND_VISUAL_VOICEMAIL_SERVICE => "android.permission.BIND_VISUAL_VOICEMAIL_SERVICE"@,
            Permissions::BIND_VOICE_INTERACTION => "android.permission.BIND_VOICE_INTERACTION"@,
            Permissions::BIND_VPN_SERVICE => "android.permission.BIND_VPN_SERVICE"@,
            Permissions::BIND_VR_LISTENER_SERVICE => "android.permission.BIND_VR_LISTENER_SERVICE"@,
            Permissions::BIND_WALLPAPER => "android.permission.BIND_WALLPAPER"@,
            Permissions::BLUETOOTH => "android.permission.BLUETOOTH"@,
            Permissions::BLUETOOTH_ADMIN => "android.permission.BLUETOOTH_ADMIN"@,
            Permissions::BLUETOOTH_ADVERTISE => "android.permission.BLUETOOTH_ADVERTISE"@,
            Permissions::BLUETOOTH_CONNECT => "android.permission.BLUETOOTH_CONNECT"@,
            Permissions::BLUETOOTH_PRIVILEGED => "android.permission.BLUETOOTH_PRIVILEGED"@,
            Permissions::BLUETOOTH_SCAN => "android.permission.BLUETOOTH_SCAN"@,
            Permissions::BODY_SENSORS => "android.permission.BODY_SENSORS"@,
            Permissions::BROADCAST_PACKAGE_REMOVED => "android.permission.BROADCAST_PACKAGE_REMOVED"@,
            Permissions::BROADCAST_SMS => "android.permission.BROADCAST_SMS"@,
            Permissions::BROADCAST_STICKY => "android.permission.BROADCAST_STICKY"@,
            Permissions::BROADCAST_WAP_PUSH => "android.permission.BROADCAST_WAP_PUSH"@,
            Permissions::CALL_COMPANION_APP => "android.permission.CALL_COMPANION_APP"@,
            Permissions::CALL_PHONE => "android.permission.CALL_PHONE"@,
            Permissions::CALL_PRIVILEGED => "android.permission.CALL_PRIVILEGED"@,
            Permissions::CAMERA => "android.permission.CAMERA"@,
            Permissions::CAPTURE_AUDIO_OUTPUT => "android.permission.CAPTURE_AUDIO_OUTPUT"@,
            Permissions::CHANGE_COMPONENT_ENABLED_STATE => "android.permission.CHANGE_COMPONENT_ENABLED_STATE"@,
            Permissions::CHANGE_CONFIGURATION => "android.permission.CHANGE_CONFIGURATION"@,
            Permissions::CHANGE_NETWORK_STATE => "android.permission.CHANGE_NETWORK_STATE"@,
            Permissions::CHANGE_WIFI_MULTICAST_STATE => "android.permission.CHANGE_WIFI_MULTICAST_STATE"@,
            Permissions::CHANGE_WIFI_STATE => "android.permission.CHANGE_WIFI_STATE"@,
            Permissions::CLEAR_APP_CACHE => "android.permission.CLEAR_APP_CACHE"@,
            Permissions::CONTROL_LOCATION_UPDATES => "android.permission.CONTROL_LOCATION_UPDATES"@,
            Permissions::DELETE_CACHE_FILES => "android.permission.DELETE_CACHE_FILES"@,
            Permissions::DELETE_PACKAGES => "android.permission.DELETE_PACKAGES"@,
            Permissions::DIAGNOSTIC => "android.permission.DIAGNOSTIC"@,
            Permissions::DISABLE_KEYGUARD => "android.permission.DISABLE_KEYGUARD"@,
            Permissions::DUMP => "android.permission.DUMP"@,
            Permissions::EXPAND_STATUS_BAR => "android.permission.EXPAND_STATUS_BAR"@,
            Permissions::FACTORY_TEST => "android.permission.FACTORY_TEST"@,
            Permissions::FOREGROUND_SERVICE => "android.permission.FOREGROUND_SERVICE"@,
            Permissions::GET_ACCOUNTS => "android.permission.GET_ACCOUNTS"@,
            Permissions::GET_ACCOUNTS_PRIVILEGED => "android.permission.GET_ACCOUNTS_PRIVILEGED"@,
            Permissions::GET_PACKAGE_SIZE => "android.permission.GET_PACKAGE_SIZE"@,
            Permissions::GET_TASKS => "android.permission.GET_TASKS"@,
            Permissions::GLOBAL_SEARCH => "android.permission.GLOBAL_SEARCH"@,
            Permissions::HIDE_OVERLAY_WINDOWS => "android.permission.HIDE_OVERLAY_WINDOWS"@,
            Permissions::HIGH_SAMPLING_RATE_SENSORS => "android.permission.HIGH_SAMPLING_RATE_SENSORS"@,
            Permissions::INSTALL_LOCATION_PROVIDER => "android.permission.INSTALL_LOCATION_PROVIDER"@,
            Permissions::INSTALL_PACKAGES => "android.permission.INSTALL_PACKAGES"@,
            Permissions::INSTALL_SHORTCUT => "android.permission.INSTALL_SHORTCUT"@,
            Permissions::INSTANT_APP_FOREGROUND_SERVICE => "android.permission.INSTANT_APP_FOREGROUND_SERVICE"@,
            Permissions::INTERACT_ACROSS_PROFILES => "android.permission.INTERACT_ACROSS_PROFILES"@,
            Permissions::INTERNET => "android.permission.INTERNET"@,
            Permissions::KILL_BACKGROUND_PROCESSES => "android.permission.KILL_BACKGROUND_PROCESSES"@,
            Permissions::LAUNCH_MULTI_PANE_SETTINGS_DEEP_LINK => "android.permission.LAUNCH_MULTI_PANE_SETTINGS_DEEP_LINK"@,
            Permissions::LOADER_USAGE_STATS => "android.permission.LOADER_USAGE_STATS"@,
            Permissions::LOCATION_HARDWARE => "android.permission.LOCATION_HARDWARE"@,
            Permissions::MANAGE_DOCUMENTS => "android.permission.MANAGE_DOCUMENTS"@,
            Permissions::MANAGE_EXTERNAL_STORAGE => "android.permission.MANAGE_EXTERNAL_STORAGE"@,
            Permissions::MANAGE_MEDIA => "android.permission.MANAGE_MEDIA"@,
            Permissions::MANAGE_ONGOING_CALLS => "android.permission.MANAGE_ONGOING_CALLS"@,
            Permissions::MANAGE_OWN_CALLS => "android.permission.MANAGE_OWN_CALLS"@,
            Permissions::MASTER_CLEAR => "android.permission.MASTER_CLEAR"@,
            Permissions::MEDIA_CONTENT_CONTROL => "android.permission.MEDIA_CONTENT_CONTROL"@,
            Permissions::MODIFY_AUDIO_SETTINGS => "android.permission.MODIFY_AUDIO_SETTINGS"@,
            Permissions::MODIFY_PHONE_STATE => "android.permission.MODIFY_PHONE_STATE"@,
            Permissions::MOUNT_FORMAT_FILESYSTEMS => "android.permission.MOUNT_FORMAT_FILESYSTEMS"@,
            Permissions::MOUNT_UNMOUNT_FILESYSTEMS => "android.permission.MOUNT_UNMOUNT_FILESYSTEMS"@,
            Permissions::NFC => "android.permission.NFC"@,
            Permissions::NFC_PREFERRED_PAYMENT_INFO => "android.permission.NFC_PREFERRED_PAYMENT_INFO"@,
            Permissions::NFC_TRANSACTION_EVENT => "android.permission.NFC_TRANSACTION_EVENT"@,
            Permissions::PACKAGE_USAGE_STATS => "android.permission.PACKAGE_USAGE_STATS"@,
            Permissions::PERSISTENT_ACTIVITY => "android.permission.PERSISTENT_ACTIVITY"@,
            Permissions::PROCESS_OUTGOING_CALLS => "android.permission.PROCESS_OUTGOING_CALLS"@,
            Permissions::QUERY_ALL_PACKAGES => "android.permission.QUERY_ALL_PACKAGES"@,
            Permissions::READ_CALENDAR => "android.permission.READ_CALENDAR"@,
            Permissions::READ_CALL_LOG => "android.permission.READ_CALL_LOG"@,
            Permissions::READ_CONTACTS => "android.permission.READ_CONTACTS"@,
            Permissions::READ_EXTERNAL_STORAG => "android.permission.READ_EXTERNAL_STORAG"@,
            Permissions::READ_INPUT_STATE => "android.permission.READ_INPUT_STATE"@,
            Permissions::READ_LOGS => "android.permission.READ_LOGS"@,
            Permissions::READ_PHONE_NUMBERS => "android.permission.READ_PHONE_NUMBERS"@,
            Permissions::READ_PHONE_STATE => "android.permission.READ_PHONE_STATE"@,
            Permissions::READ_PRECISE_PHONE_STATE => "android.permission.READ_PRECISE_PHONE_STATE"@,
            Permissions::READ_SMS => "android.permission.READ_SMS"@,
            Permissions::READ_SYNC_SETTINGS => "android.permission.READ_SYNC_SETTINGS"@,
            Permissions::READ_SYNC_STATS => "android.permission.READ_SYNC_STATS"@,
            Permissions::READ_VOICEMAIL => "android.permission.READ_VOICEMAIL"@,
            Permissions::REBOOT => "android.permission.REBOOT"@,
            Permissions::RECEIVE_BOOT_COMPLETED => "android.permission.RECEIVE_BOOT_COMPLETED"@,
            Permissions::RECEIVE_MMS => "android.permission.RECEIVE_MMS"@,
            Permissions::RECEIVE_SMS => "android.permission.RECEIVE_SMS"@,
            Permissions::RECEIVE_WAP_PUSH => "android.permission.RECEIVE_WAP_PUSH"@,
            Permissions::RECORD_AUDIO => "android.permission.RECORD_AUDIO"@,
            Permissions::REORDER_TASKS => "android.permission.REORDER_TASKS"@,
            Permissions::REQUEST_COMPANION_PROFILE_WATCH => "android.permission.REQUEST_COMPANION_PROFILE_WATCH"@,
            Permissions::REQUEST_COMPANION_RUN_IN_BACKGROUND => "android.permission.REQUEST_COMPANION_RUN_IN_BACKGROUND"@,
            Permissions::REQUEST_COMPANION_START_FOREGROUND_SERVICES_FROM_BACKGROUND => "android.permission.REQUEST_COMPANION_START_FOREGROUND_SERVICES_FROM_BACKGROUND"@,
            Permissions::REQUEST_COMPANION_USE_DATA_IN_BACKGROUND => "android.permission.REQUEST_COMPANION_USE_DATA_IN_BACKGROUND"@,
            Permissions::REQUEST_DELETE_PACKAGES => "android.permission.REQUEST_DELETE_PACKAGES"@,
            Permissions::REQUEST_IGNORE_BATTERY_OPTIMIZATIONS => "android.permission.REQUEST_IGNORE_BATTERY_OPTIMIZATIONS"@,
            Permissions::REQUEST_INSTALL_PACKAGES => "android.permission.REQUEST_INSTALL_PACKAGES"@,
            Permissions::REQUEST_OBSERVE_COMPANION_DEVICE_PRESENCE => "android.permission.REQUEST_OBSERVE_COMPANION_DEVICE_PRESENCE"@,
            Permissions::REQUEST_PASSWORD_COMPLEXITY => "android.permission.REQUEST_PASSWORD_COMPLEXITY"@,
            Permissions::RESTART_PACKAGES => "android.permission.RESTART_PACKAGES"@,
            Permissions::SCHEDULE_EXACT_ALARM => "android.permission.SCHEDULE_EXACT_ALARM"@,
            Permissions::SEND_RESPOND_VIA_MESSAGE => "android.permission.SEND_RESPOND_VIA_MESSAGE"@,
            Permissions::SEND_SMS => "android.permission.SEND_SMS"@,
            Permissions::SET_ALARM => "android.permission.SET_ALARM"@,
            Permissions::SET_ALWAYS_FINISH => "android.permission.SET_ALWAYS_FINISH"@,
            Permissions::SET_ANIMATION_SCALE => "android.permission.SET_ANIMATION_SCALE"@,
            Permissions::SET_DEBUG_APP => "android.permission.SET_DEBUG_APP"@,
            Permissions::SET_PREFERRED_APPLICATIONS => "android.permission.SET_PREFERRED_APPLICATIONS"@,
            Permissions::SET_PROCESS_LIMIT => "android.permission.SET_PROCESS_LIMIT"@,
            Permissions::SET_TIME => "android.permission.SET_TIME"@,
            Permissions::SET_TIME_ZONE => "android.permission.SET_TIME_ZONE"@,
            Permissions::SET_WALLPAPER => "android.permission.SET_WALLPAPER"@,
            Permissions::SET_WALLPAPER_HINTS => "android.permission.SET_WALLPAPER_HINTS"@,
            Permissions::SIGNAL_PERSISTENT_PROCESSES => "android.permission.SIGNAL_PERSISTENT_PROCESSES"@,
            Permissions::SMS_FINANCIAL_TRANSACTIONS => "android.permission.SMS_FINANCIAL_TRANSACTIONS"@,
            Permissions::START_FOREGROUND_SERVICES_FROM_BACKGROUND => "android.permission.START_FOREGROUND_SERVICES_FROM_BACKGROUND"@,
            Permissions::START_VIEW_PERMISSION_USAGE => "android.permission.START_VIEW_PERMISSION_USAGE"@,
            Permissions::STATUS_BAR => "android.permission.STATUS_BAR"@,
            Permissions::SYSTEM_ALERT_WINDOW => "android.permission.SYSTEM_ALERT_WINDOW"@,
            Permissions::TRANSMIT_IR => "android.permission.TRANSMIT_IR"@,
            Permissions::UNINSTALL_SHORTCUT => "android.permission.UNINSTALL_SHORTCUT"@,
            Permissions::UPDATE_DEVICE_STATS => "android.permission.UPDATE_DEVICE_STATS"@,
            Permissions::UPDATE_PACKAGES_WITHOUT_USER_ACTION => "android.permission.UPDATE_PACKAGES_WITHOUT_USER_ACTION"@,
            Permissions::USE_BIOMETRIC => "android.permission.USE_BIOMETRIC"@,
            Permissions::USE_FINGERPRINT => "android.permission.USE_FINGERPRINT"@,
            Permissions::USE_FULL_SCREEN_INTENT => "android.permission.USE_FULL_SCREEN_INTENT"@,
            Permissions::USE_ICC_AUTH_WITH_DEVICE_IDENTIFIER => "android.permission.USE_ICC_AUTH_WITH_DEVICE_IDENTIFIER"@,
            Permissions::USE_SIP => "android.permission.USE_SIP"@,
            Permissions::UWB_RANGING => "android.permission.UWB_RANGING"@,
            Permissions::VIBRATE => "android.permission.VIBRATE"@,
            Permissions::WAKE_LOCK => "android.permission.WAKE_LOCK"@,
            Permissions::WRITE_APN_SETTINGS => "android.permission.WRITE_APN_SETTINGS"@,
            Permissions::WRITE_CALENDAR => "android.permission.WRITE_CALENDAR"@,
            Permissions::WRITE_CALL_LOG => "android.permission.WRITE_CALL_LOG"@,
            Permissions::WRITE_CONTACTS => "android.permission.WRITE_CONTACTS"@,
            Permissions::WRITE_EXTERNAL_STORAGE => "android.permission.WRITE_EXTERNAL_STORAGE"@,
            Permissions::WRITE_GSERVICES => "android.permission.WRITE_GSERVICES"@,
            Permissions::WRITE_SECURE_SETTINGS => "android.permission.WRITE_SECURE_SETTINGS"@,
            Permissions::WRITE_SETTINGS => "android.permission.WRITE_SETTINGS"@,
            Permissions::WRITE_SYNC_SETTINGS => "android.permission.WRITE_SYNC_SETTINGS"@,
            Permissions::WRITE_VOICEMAIL => "android.permission.WRITE_VOICEMAIL"@,
        }
    }

    /// The text that the platform knows the value by.
    pub fn as_str(&self) -> (s: &'static str)
        ensures
            s@ == self.name(),
    {
        match self {
            Permissions::ACCEPT_HANDOVER => "android.permission.ACCEPT_HANDOVER",
            Permissions::ACCESS_BACKGROUND_LOCATION => "android.permission.ACCESS_BACKGROUND_LOCATION",
            Permissions::ACCESS_BLOBS_ACROSS_USERS => "android.permission.ACCESS_BLOBS_ACROSS_USERS",
            Permissions::ACCESS_CHECKIN_PROPERTIES => "android.permission.ACCESS_CHECKIN_PROPERTIES",
            Permissions::ACCESS_COARSE_LOCATION => "android.permission.ACCESS_COARSE_LOCATION",
            Permissions::ACCESS_FINE_LOCATION => "android.permission.ACCESS_FINE_LOCATION",
            Permissions::ACCESS_LOCATION_EXTRA_COMMANDS => "android.permission.ACCESS_LOCATION_EXTRA_COMMANDS",
            Permissions::ACCESS_MEDIA_LOCATION => "android.permission.ACCESS_MEDIA_LOCATION",
            Permissions::ACCESS_NETWORK_STATE => "android.permission.ACCESS_NETWORK_STATE",
            Permissions::ACCESS_NOTIFICATION_POLICY => "android.permission.ACCESS_NOTIFICATION_POLICY",
            Permissions::ACCESS_WIFI_STATE => "android.permission.ACCESS_WIFI_STATE",
            Permissions::ACCOUNT_MANAGER => "android.permission.ACCOUNT_MANAGER",
            Permissions::ACTIVITY_RECOGNITION => "android.permission.ACTIVITY_RECOGNITION",
            Permissions::ADD_VOICEMAIL => "android.permission.ADD_VOICEMAIL",
            Permissions::ANSWER_PHONE_CALLS => "android.permission.ANSWER_PHONE_CALLS",
            Permissions::BATTERY_STATS => "android.permission.BATTERY_STATS",
            Permissions::BIND_ACCESSIBILITY_SERVICE => "android.permission.BIND_ACCESSIBILITY_SERVICE",
            Permissions::BIND_APPWIDGET => "android.permission.BIND_APPWIDGET",
            Permissions::BIND_AUTOFILL_SERVICE => "android.permission.BIND_AUTOFILL_SERVICE",
            Permissions::BIND_CALL_REDIRECTION_SERVICE => "android.permission.BIND_CALL_REDIRECTION_SERVICE",
            Permissions::BIND_CARRIER_MESSAGING_CLIENT_SERVICE => "android.permission.BIND_CARRIER_MESSAGING_CLIENT_SERVICE",
            Permissions::BIND_CARRIER_MESSAGING_SERVICE => "android.permission.BIND_CARRIER_MESSAGING_SERVICE",
            Permissions::BIND_CARRIER_SERVICES => "android.permission.BIND_CARRIER_SERVICES",
            Permissions::BIND_CHOOSER_TARGET_SERVICE => "android.permission.BIND_CHOOSER_TARGET_SERVICE",
            Permissions::BIND_COMPANION_DEVICE_SERVICE => "android.permission.BIND_COMPANION_DEVICE_SERVICE",
            Permissions::BIND_CONDITION_PROVIDER_SERVICE => "android.permission.BIND_CONDITION_PROVIDER_SERVICE",
            Permissions::BIND_CONTROLS => "android.permission.BIND_CONTROLS",
            Permissions::BIND_DEVICE_ADMIN => "android.permission.BIND_DEVICE_ADMIN",
            Permissions::BIND_DREAM_SERVICE => "android.permission.BIND_DREAM_SERVICE",
            Permissions::BIND_INCALL_SERVICE => "android.permission.BIND_INCALL_SERVICE",
            Permissions::BIND_INPUT_METHOD => "android.permission.BIND_INPUT_METHOD",
            Permissions::BIND_MIDI_DEVICE_SERVICE => "android.permission.BIND_MIDI_DEVICE_SERVICE",
            Permissions::BIND_NFC_SERVICE => "android.permission.BIND_NFC_SERVICE",
            Permissions::BIND_NOTIFICATION_LISTENER_SERVICE => "android.permission.BIND_NOTIFICATION_LISTENER_SERVICE",
            Permissions::BIND_PRINT_SERVICE => "android.permission.BIND_PRINT_SERVICE",
            Permissions::BIND_QUICK_ACCESS_WALLET_SERVICE => "android.permission.BIND_QUICK_ACCESS_WALLET_SERVICE",
            Permissions::BIND_QUICK_SETTINGS_TILE => "android.permission.BIND_QUICK_SETTINGS_TILE",
            Permissions::BIND_REMOTEVIEWS => "android.permission.BIND_REMOTEVIEWS",
            Permissions::BIND_SCREENING_SERVICE => "android.permission.BIND_SCREENING_SERVICE",
            Permissions::BIND_TELECOM_CONNECTION_SERVICE => "android.permission.BIND_TELECOM_CONNECTION_SERVICE",
            Permissions::BIND_TEXT_SERVICE => "android.permission.BIND_TEXT_SERVICE",
            Permissions::BIND_TV_INPUT => "android.permission.BIND_TV_INPUT",
            Permissions::BIND_VISUAL_VOICEMAIL_SERVICE => "android.permission.BIND_VISUAL_VOICEMAIL_SERVICE",
            Permissions::BIND_VOICE_INTERACTION => "android.permission.BIND_VOICE_INTERACTION",
            Permissions::BIND_VPN_SERVICE => "android.permission.BIND_VPN_SERVICE",
            Permissions::BIND_VR_LISTENER_SERVICE => "android.permission.BIND_VR_LISTENER_SERVICE",
            Permissions::BIND_WALLPAPER => "android.permission.BIND_WALLPAPER",
            Permissions::BLUETOOTH => "android.permission.BLUETOOTH",
            Permissions::BLUETOOTH_ADMIN => "android.permission.BLUETOOTH_ADMIN",
            Permissions::BLUETOOTH_ADVERTISE => "android.permission.BLUETOOTH_ADVERTISE",
            Permissions::BLUETOOTH_CONNECT => "android.permission.BLUETOOTH_CONNECT",
            Permissions::BLUETOOTH_PRIVILEGED => "android.permission.BLUETOOTH_PRIVILEGED",
            Permissions::BLUETOOTH_SCAN => "android.permission.BLUETOOTH_SCAN",
            Permissions::BODY_SENSORS => "android.permission.BODY_SENSORS",
            Permissions::BROADCAST_PACKAGE_REMOVED => "android.permission.BROADCAST_PACKAGE_REMOVED",
            Permissions::BROADCAST_SMS => "android.permission.BROADCAST_SMS",
            Permissions::BROADCAST_STICKY => "android.permission.BROADCAST_STICKY",
            Permissions::BROADCAST_WAP_PUSH => "android.permission.BROADCAST_WAP_PUSH",
            Permissions::CALL_COMPANION_APP => "android.permission.CALL_COMPANION_APP",
            Permissions::CALL_PHONE => "android.permission.CALL_PHONE",
            Permissions::CALL_PRIVILEGED => "android.permission.CALL_PRIVILEGED",
            Permissions::CAMERA => "android.permission.CAMERA",
            Permissions::CAPTURE_AUDIO_OUTPUT => "android.permission.CAPTURE_AUDIO_OUTPUT",
            Permissions::CHANGE_COMPONENT_ENABLED_STATE => "android.permission.CHANGE_COMPONENT_ENABLED_STATE",
            Permissions::CHANGE_CONFIGURATION => "android.permission.CHANGE_CONFIGURATION",
            Permissions::CHANGE_NETWORK_STATE => "android.permission.CHANGE_NETWORK_STATE",
            Permissions::CHANGE_WIFI_MULTICAST_STATE => "android.permission.CHANGE_WIFI_MULTICAST_STATE",
            Permissions::CHANGE_WIFI_STATE => "android.permission.CHANGE_WIFI_STATE",
            Permissions::CLEAR_APP_CACHE => "android.permission.CLEAR_APP_CACHE",
            Permissions::CONTROL_LOCATION_UPDATES => "android.permission.CONTROL_LOCATION_UPDATES",
            Permissions::DELETE_CACHE_FILES => "android.permission.DELETE_CACHE_FILES",
            Permissions::DELETE_PACKAGES => "android.permission.DELETE_PACKAGES",
            Permissions::DIAGNOSTIC => "android.permission.DIAGNOSTIC",
            Permissions::DISABLE_KEYGUARD => "android.permission.DISABLE_KEYGUARD",
            Permissions::DUMP => "android.permission.DUMP",
            Permissions::EXPAND_STATUS_BAR => "android.permission.EXPAND_STATUS_BAR",
            Permissions::FACTORY_TEST => "android.permission.FACTORY_TEST",
            Permissions::FOREGROUND_SERVICE => "android.permission.FOREGROUND_SERVICE",
            Permissions::GET_ACCOUNTS => "android.permission.GET_ACCOUNTS",
            Permissions::GET_ACCOUNTS_PRIVILEGED => "android.permission.GET_ACCOUNTS_PRIVILEGED",
            Permissions::GET_PACKAGE_SIZE => "android.permission.GET_PACKAGE_SIZE",
            Permissions::GET_TASKS => "android.permission.GET_TASKS",
            Permissions::GLOBAL_SEARCH => "android.permission.GLOBAL_SEARCH",
            Permissions::HIDE_OVERLAY_WINDOWS => "android.permission.HIDE_OVERLAY_WINDOWS",
            Permissions::HIGH_SAMPLING_RATE_SENSORS => "android.permission.HIGH_SAMPLING_RATE_SENSORS",
            Permissions::INSTALL_LOCATION_PROVIDER => "android.permission.INSTALL_LOCATION_PROVIDER",
            Permissions::INSTALL_PACKAGES => "android.permission.INSTALL_PACKAGES",
            Permissions::INSTALL_SHORTCUT => "android.permission.INSTALL_SHORTCUT",
            Permissions::INSTANT_APP_FOREGROUND_SERVICE => "android.permission.INSTANT_APP_FOREGROUND_SERVICE",
            Permissions::INTERACT_ACROSS_PROFILES => "android.permission.INTERACT_ACROSS_PROFILES",
            Permissions::INTERNET => "android.permission.INTERNET",
            Permissions::KILL_BACKGROUND_PROCESSES => "android.permission.KILL_BACKGROUND_PROCESSES",
            Permissions::LAUNCH_MULTI_PANE_SETTINGS_DEEP_LINK => "android.permission.LAUNCH_MULTI_PANE_SETTINGS_DEEP_LINK",
            Permissions::LOADER_USAGE_STATS => "android.permission.LOADER_USAGE_STATS",
            Permissions::LOCATION_HARDWARE => "android.permission.LOCATION_HARDWARE",
            Permissions::MANAGE_DOCUMENTS => "android.permission.MANAGE_DOCUMENTS",
            Permissions::MANAGE_EXTERNAL_STORAGE => "android.permission.MANAGE_EXTERNAL_STORAGE",
            Permissions::MANAGE_MEDIA => "android.permission.MANAGE_MEDIA",
            Permissions::MANAGE_ONGOING_CALLS => "android.permission.MANAGE_ONGOING_CALLS",
            Permissions::MANAGE_OWN_CALLS => "android.permission.MANAGE_OWN_CALLS",
            Permissions::MASTER_CLEAR => "android.permission.MASTER_CLEAR",
            Permissions::MEDIA_CONTENT_CONTROL => "android.permission.MEDIA_CONTENT_CONTROL",
            Permissions::MODIFY_AUDIO_SETTINGS => "android.permission.MODIFY_AUDIO_SETTINGS",
            Permissions::MODIFY_PHONE_STATE => "android.permission.MODIFY_PHONE_STATE",
            Permissions::MOUNT_FORMAT_FILESYSTEMS => "android.permission.MOUNT_FORMAT_FILESYSTEMS",
            Permissions::MOUNT_UNMOUNT_FILESYSTEMS => "android.permission.MOUNT_UNMOUNT_FILESYSTEMS",
            Permissions::NFC => "android.permission.NFC",
            Permissions::NFC_PREFERRED_PAYMENT_INFO => "android.permission.NFC_PREFERRED_PAYMENT_INFO",
            Permissions::NFC_TRANSACTION_EVENT => "android.permission.NFC_TRANSACTION_EVENT",
            Permissions::PACKAGE_USAGE_STATS => "android.permission.PACKAGE_USAGE_STATS",
            Permissions::PERSISTENT_ACTIVITY => "android.permission.PERSISTENT_ACTIVITY",
            Permissions::PROCESS_OUTGOING_CALLS => "android.permission.PROCESS_OUTGOING_CALLS",
            Permissions::QUERY_ALL_PACKAGES => "android.permission.QUERY_ALL_PACKAGES",
            Permissions::READ_CALENDAR => "android.permission.READ_CALENDAR",
            Permissions::READ_CALL_LOG => "android.permission.READ_CALL_LOG",
            Permissions::READ_CONTACTS => "android.permission.READ_CONTACTS",
            Permissions::READ_EXTERNAL_STORAG => "android.permission.READ_EXTERNAL_STORAG",
            Permissions::READ_INPUT_STATE => "android.permission.READ_INPUT_STATE",
            Permissions::READ_LOGS => "android.permission.READ_LOGS",
            Permissions::READ_PHONE_NUMBERS => "android.permission.READ_PHONE_NUMBERS",
            Permissions::READ_PHONE_STATE => "android.permission.READ_PHONE_STATE",
            Permissions::READ_PRECISE_PHONE_STATE => "android.permission.READ_PRECISE_PHONE_STATE",
            Permissions::READ_SMS => "android.permission.READ_SMS",
            Permissions::READ_SYNC_SETTINGS => "android.permission.READ_SYNC_SETTINGS",
            Permissions::READ_SYNC_STATS => "android.permission.READ_SYNC_STATS",
            Permissions::READ_VOICEMAIL => "android.permission.READ_VOICEMAIL",
            Permissions::REBOOT => "android.permission.REBOOT",
            Permissions::RECEIVE_BOOT_COMPLETED => "android.permission.RECEIVE_BOOT_COMPLETED",
            Permissions::RECEIVE_MMS => "android.permission.RECEIVE_MMS",
            Permissions::RECEIVE_SMS => "android.permission.RECEIVE_SMS",
            Permissions::RECEIVE_WAP_PUSH => "android.permission.RECEIVE_WAP_PUSH",
            Permissions::RECORD_AUDIO => "android.permission.RECORD_AUDIO",
            Permissions::REORDER_TASKS => "android.permission.REORDER_TASKS",
            Permissions::REQUEST_COMPANION_PROFILE_WATCH => "android.permission.REQUEST_COMPANION_PROFILE_WATCH",
            Permissions::REQUEST_COMPANION_RUN_IN_BACKGROUND => "android.permission.REQUEST_COMPANION_RUN_IN_BACKGROUND",
            Permissions::REQUEST_COMPANION_START_FOREGROUND_SERVICES_FROM_BACKGROUND => "android.permission.REQUEST_COMPANION_START_FOREGROUND_SERVICES_FROM_BACKGROUND",
            Permissions::REQUEST_COMPANION_USE_DATA_IN_BACKGROUND => "android.permission.REQUEST_COMPANION_USE_DATA_IN_BACKGROUND",
            Permissions::REQUEST_DELETE_PACKAGES => "android.permission.REQUEST_DELETE_PACKAGES",
            Permissions::REQUEST_IGNORE_BATTERY_OPTIMIZATIONS => "android.permission.REQUEST_IGNORE_BATTERY_OPTIMIZATIONS",
            Permissions::REQUEST_INSTALL_PACKAGES => "android.permission.REQUEST_INSTALL_PACKAGES",
            Permissions::REQUEST_OBSERVE_COMPANION_DEVICE_PRESENCE => "android.permission.REQUEST_OBSERVE_COMPANION_DEVICE_PRESENCE",
            Permissions::REQUEST_PASSWORD_COMPLEXITY => "android.permission.REQUEST_PASSWORD_COMPLEXITY",
            Permissions::RESTART_PACKAGES => "android.permission.RESTART_PACKAGES",
            Permissions::SCHEDULE_EXACT_ALARM => "android.permission.SCHEDULE_EXACT_ALARM",
            Permissions::SEND_RESPOND_VIA_MESSAGE => "android.permission.SEND_RESPOND_VIA_MESSAGE",
            Permissions::SEND_SMS => "android.permission.SEND_SMS",
            Permissions::SET_ALARM => "android.permission.SET_ALARM",
            Permissions::SET_ALWAYS_FINISH => "android.permission.SET_ALWAYS_FINISH",
            Permissions::SET_ANIMATION_SCALE => "android.permission.SET_ANIMATION_SCALE",
            Permissions::SET_DEBUG_APP => "android.permission.SET_DEBUG_APP",
            Permissions::SET_PREFERRED_APPLICATIONS => "android.permission.SET_PREFERRED_APPLICATIONS",
            Permissions::SET_PROCESS_LIMIT => "android.permission.SET_PROCESS_LIMIT",
            Permissions::SET_TIME => "android.permission.SET_TIME",
            Permissions::SET_TIME_ZONE => "android.permission.SET_TIME_ZONE",
            Permissions::SET_WALLPAPER => "android.permission.SET_WALLPAPER",
            Permissions::SET_WALLPAPER_HINTS => "android.permission.SET_WALLPAPER_HINTS",
            Permissions::SIGNAL_PERSISTENT_PROCESSES => "android.permission.SIGNAL_PERSISTENT_PROCESSES",
            Permissions::SMS_FINANCIAL_TRANSACTIONS => "android.permission.SMS_FINANCIAL_TRANSACTIONS",
            Permissions::START_FOREGROUND_SERVICES_FROM_BACKGROUND => "android.permission.START_FOREGROUND_SERVICES_FROM_BACKGROUND",
            Permissions::START_VIEW_PERMISSION_USAGE => "android.permission.START_VIEW_PERMISSION_USAGE",
            Permissions::STATUS_BAR => "android.permission.STATUS_BAR",
            Permissions::SYSTEM_ALERT_WINDOW => "android.permission.SYSTEM_ALERT_WINDOW",
            Permissions::TRANSMIT_IR => "android.permission.TRANSMIT_IR",
            Permissions::UNINSTALL_SHORTCUT => "android.permission.UNINSTALL_SHORTCUT",
            Permissions::UPDATE_DEVICE_STATS => "android.permission.UPDATE_DEVICE_STATS",
            Permissions::UPDATE_PACKAGES_WITHOUT_USER_ACTION => "android.permission.UPDATE_PACKAGES_WITHOUT_USER_ACTION",
            Permissions::USE_BIOMETRIC => "android.permission.USE_BIOMETRIC",
            Permissions::USE_FINGERPRINT => "android.permission.USE_FINGERPRINT",
            Permissions::USE_FULL_SCREEN_INTENT => "android.permission.USE_FULL_SCREEN_INTENT",
            Permissions::USE_ICC_AUTH_WITH_DEVICE_IDENTIFIER => "android.permission.USE_ICC_AUTH_WITH_DEVICE_IDENTIFIER",
            Permissions::USE_SIP => "android.permission.USE_SIP",
            Permissions::UWB_RANGING => "android.permission.UWB_RANGING",
            Permissions::VIBRATE => "android.permission.VIBRATE",
            Permissions::WAKE_LOCK => "android.permission.WAKE_LOCK",
            Permissions::WRITE_APN_SETTINGS => "android.permission.WRITE_APN_SETTINGS",
            Permissions::WRITE_CALENDAR => "android.permission.WRITE_CALENDAR",
            Permissions::WRITE_CALL_LOG => "android.permission.WRITE_CALL_LOG",
            Permissions::WRITE_CONTACTS => "android.permission.WRITE_CONTACTS",
            Permissions::WRITE_EXTERNAL_STORAGE => "android.permission.WRITE_EXTERNAL_STORAGE",
            Permissions::WRITE_GSERVICES => "android.permission.WRITE_GSERVICES",
            Permissions::WRITE_SECURE_SETTINGS => "android.permission.WRITE_SECURE_SETTINGS",
            Permissions::WRITE_SETTINGS => "android.permission.WRITE_SETTINGS",
            Permissions::WRITE_SYNC_SETTINGS => "android.permission.WRITE_SYNC_SETTINGS",
            Permissions::WRITE_VOICEMAIL => "android.permission.WRITE_VOICEMAIL",
        }
    }

    /// The text that the platform knows the value by, as an owned string.
    pub fn to_string(&self) -> (s: String)
        ensures
            s@ == self.name(),
    {
        self.as_str().to_owned()
    }

    /// Different permissions have different names.
    pub proof fn lemma_name_is_injective(self, other: Permissions)
        requires
            self.name() == other.name(),
        ensures
            self == other,
    {
        reveal_strlit("android.permission.ACCEPT_HANDOVER");
        reveal_strlit("android.permission.ACCESS_BACKGROUND_LOCATION");
        reveal_strlit("android.permission.ACCESS_BLOBS_ACROSS_USERS");
        reveal_strlit("android.permission.ACCESS_CHECKIN_PROPERTIES");
        reveal_strlit("android.permission.ACCESS_COARSE_LOCATION");
        reveal_strlit("android.permission.ACCESS_FINE_LOCATION");
        reveal_strlit("android.permission.ACCESS_LOCATION_EXTRA_COMMANDS");
        reveal_strlit("android.permission.ACCESS_MEDIA_LOCATION");
        reveal_strlit("android.permission.ACCESS_NETWORK_STATE");
        reveal_strlit("android.permission.ACCESS_NOTIFICATION_POLICY");
        reveal_strlit("android.permission.ACCESS_WIFI_STATE");
        reveal_strlit("android.permission.ACCOUNT_MANAGER");
        reveal_strlit("android.permission.ACTIVITY_RECOGNITION");
        reveal_strlit("android.permission.ADD_VOICEMAIL");
        reveal_strlit("android.permission.ANSWER_PHONE_CALLS");
        reveal_strlit("android.permission.BATTERY_STATS");
        reveal_strlit("android.permission.BIND_ACCESSIBILITY_SERVICE");
        reveal_strlit("android.permission.BIND_APPWIDGET");
        reveal_strlit("android.permission.BIND_AUTOFILL_SERVICE");
        reveal_strlit("android.permission.BIND_CALL_REDIRECTION_SERVICE");
        reveal_strlit("android.permission.BIND_CARRIER_MESSAGING_CLIENT_SERVICE");
        reveal_strlit("android.permission.BIND_CARRIER_MESSAGING_SERVICE");
        reveal_strlit("android.permission.BIND_CARRIER_SERVICES");
        reveal_strlit("android.permission.BIND_CHOOSER_TARGET_SERVICE");
        reveal_strlit("android.permission.BIND_COMPANION_DEVICE_SERVICE");
        reveal_strlit("android.permission.BIND_CONDITION_PROVIDER_SERVICE");
        reveal_strlit("android.permission.BIND_CONTROLS");
        reveal_strlit("android.permission.BIND_DEVICE_ADMIN");
        reveal_strlit("android.permission.BIND_DREAM_SERVICE");
        reveal_strlit("android.permission.BIND_INCALL_SERVICE");
        reveal_strlit("android.permission.BIND_INPUT_METHOD");
        reveal_strlit("android.permission.BIND_MIDI_DEVICE_SERVICE");
        reveal_strlit("android.permission.BIND_NFC_SERVICE");
        reveal_strlit("android.permission.BIND_NOTIFICATION_LISTENER_SERVICE");
        reveal_strlit("android.permission.BIND_PRINT_SERVICE");
        reveal_strlit("android.permission.BIND_QUICK_ACCESS_WALLET_SERVICE");
        reveal_strlit("android.permission.BIND_QUICK_SETTINGS_TILE");
        reveal_strlit("android.permission.BIND_REMOTEVIEWS");
        reveal_strlit("android.permission.BIND_SCREENING_SERVICE");
        reveal_strlit("android.permission.BIND_TELECOM_CONNECTION_SERVICE");
        reveal_strlit("android.permission.BIND_TEXT_SERVICE");
        reveal_strlit("android.permission.BIND_TV_INPUT");
        reveal_strlit("android.permission.BIND_VISUAL_VOICEMAIL_SERVICE");
        reveal_strlit("android.permission.BIND_VOICE_INTERACTION");
        reveal_strlit("android.permission.BIND_VPN_SERVICE");
        reveal_strlit("android.permission.BIND_VR_LISTENER_SERVICE");
        reveal_strlit("android.permission.BIND_WALLPAPER");
        reveal_strlit("android.permission.BLUETOOTH");
        reveal_strlit("android.permission.BLUETOOTH_ADMIN");
        reveal_strlit("android.permission.BLUETOOTH_ADVERTISE");
        reveal_strlit("android.permission.BLUETOOTH_CONNECT");
        reveal_strlit("android.permission.BLUETOOTH_PRIVILEGED");
        reveal_strlit("android.permission.BLUETOOTH_SCAN");
        reveal_strlit("android.permission.BODY_SENSORS");
        reveal_strlit("android.permission.BROADCAST_PACKAGE_REMOVED");
        reveal_strlit("android.permission.BROADCAST_SMS");
        reveal_strlit("android.permission.BROADCAST_STICKY");
        reveal_strlit("android.permission.BROADCAST_WAP_PUSH");
        reveal_strlit("android.permission.CALL_COMPANION_APP");
        reveal_strlit("android.permission.CALL_PHONE");
        reveal_strlit("android.permission.CALL_PRIVILEGED");
        reveal_strlit("android.permission.CAMERA");
        reveal_strlit("android.permission.CAPTURE_AUDIO_OUTPUT");
        reveal_strlit("android.permission.CHANGE_COMPONENT_ENABLED_STATE");
        reveal_strlit("android.permission.CHANGE_CONFIGURATION");
        reveal_strlit("android.permission.CHANGE_NETWORK_STATE");
        reveal_strlit("android.permission.CHANGE_WIFI_MULTICAST_STATE");
        reveal_strlit("android.permission.CHANGE_WIFI_STATE");
        reveal_strlit("android.permission.CLEAR_APP_CACHE");
        reveal_strlit("android.permission.CONTROL_LOCATION_UPDATES");
        reveal_strlit("android.permission.DELETE_CACHE_FILES");
        reveal_strlit("android.permission.DELETE_PACKAGES");
        reveal_strlit("android.permission.DIAGNOSTIC");
        reveal_strlit("android.permission.DISABLE_KEYGUARD");
        reveal_strlit("android.permission.DUMP");
        reveal_strlit("android.permission.EXPAND_STATUS_BAR");
        reveal_strlit("android.permission.FACTORY_TEST");
        reveal_strlit("android.permission.FOREGROUND_SERVICE");
        reveal_strlit("android.permission.GET_ACCOUNTS");
        reveal_strlit("android.permission.GET_ACCOUNTS_PRIVILEGED");
        reveal_strlit("android.permission.GET_PACKAGE_SIZE");
        reveal_strlit("android.permission.GET_TASKS");
        reveal_strlit("android.permission.GLOBAL_SEARCH");
        reveal_strlit("android.permission.HIDE_OVERLAY_WINDOWS");
        reveal_strlit("android.permission.HIGH_SAMPLING_RATE_SENSORS");
        reveal_strlit("android.permission.INSTALL_LOCATION_PROVIDER");
        reveal_strlit("android.permission.INSTALL_PACKAGES");
        reveal_strlit("android.permission.INSTALL_SHORTCUT");
        reveal_strlit("android.permission.INSTANT_APP_FOREGROUND_SERVICE");
        reveal_strlit("android.permission.INTERACT_ACROSS_PROFILES");
        reveal_strlit("android.permission.INTERNET");
        reveal_strlit("android.permission.KILL_BACKGROUND_PROCESSES");
        reveal_strlit("android.permission.LAUNCH_MULTI_PANE_SETTINGS_DEEP_LINK");
        reveal_strlit("android.permission.LOADER_USAGE_STATS");
        reveal_strlit("android.permission.LOCATION_HARDWARE");
        reveal_strlit("android.permission.MANAGE_DOCUMENTS");
        reveal_strlit("android.permission.MANAGE_EXTERNAL_STORAGE");
        reveal_strlit("android.permission.MANAGE_MEDIA");
        reveal_strlit("android.permission.MANAGE_ONGOING_CALLS");
        reveal_strlit("android.permission.MANAGE_OWN_CALLS");
        reveal_strlit("android.permission.MASTER_CLEAR");
        reveal_strlit("android.permission.MEDIA_CONTENT_CONTROL");
        reveal_strlit("android.permission.MODIFY_AUDIO_SETTINGS");
        reveal_strlit("android.permission.MODIFY_PHONE_STATE");
        reveal_strlit("android.permission.MOUNT_FORMAT_FILESYSTEMS");
        reveal_strlit("android.permission.MOUNT_UNMOUNT_FILESYSTEMS");
        reveal_strlit("android.permission.NFC");
        reveal_strlit("android.permission.NFC_PREFERRED_PAYMENT_INFO");
        reveal_strlit("android.permission.NFC_TRANSACTION_EVENT");
        reveal_strlit("android.permission.PACKAGE_USAGE_STATS");
        reveal_strlit("android.permission.PERSISTENT_ACTIVITY");
        reveal_strlit("android.permission.PROCESS_OUTGOING_CALLS");
        reveal_strlit("android.permission.QUERY_ALL_PACKAGES");
        reveal_strlit("android.permission.READ_CALENDAR");
        reveal_strlit("android.permission.READ_CALL_LOG");
        reveal_strlit("android.permission.READ_CONTACTS");
        reveal_strlit("android.permission.READ_EXTERNAL_STORAG");
        reveal_strlit("android.permission.READ_INPUT_STATE");
        reveal_strlit("android.permission.READ_LOGS");
        reveal_strlit("android.permission.READ_PHONE_NUMBERS");
        reveal_strlit("android.permission.READ_PHONE_STATE");
        reveal_strlit("android.permission.READ_PRECISE_PHONE_STATE");
        reveal_strlit("android.permission.READ_SMS");
        reveal_strlit("android.permission.READ_SYNC_SETTINGS");
        reveal_strlit("android.permission.READ_SYNC_STATS");
        reveal_strlit("android.permission.READ_VOICEMAIL");
        reveal_strlit("android.permission.REBOOT");
        reveal_strlit("android.permission.RECEIVE_BOOT_COMPLETED");
        reveal_strlit("android.permission.RECEIVE_MMS");
        reveal_strlit("android.permission.RECEIVE_SMS");
        reveal_strlit("android.permission.RECEIVE_WAP_PUSH");
        reveal_strlit("android.permission.RECORD_AUDIO");
        reveal_strlit("android.permission.REORDER_TASKS");
        reveal_strlit("android.permission.REQUEST_COMPANION_PROFILE_WATCH");
        reveal_strlit("android.permission.REQUEST_COMPANION_RUN_IN_BACKGROUND");
        reveal_strlit("android.permission.REQUEST_COMPANION_START_FOREGROUND_SERVICES_FROM_BACKGROUND");
        reveal_strlit("android.permission.REQUEST_COMPANION_USE_DATA_IN_BACKGROUND");
        reveal_strlit("android.permission.REQUEST_DELETE_PACKAGES");
        reveal_strlit("android.permission.REQUEST_IGNORE_BATTERY_OPTIMIZATIONS");
        reveal_strlit("android.permission.REQUEST_INSTALL_PACKAGES");
        reveal_strlit("android.permission.REQUEST_OBSERVE_COMPANION_DEVICE_PRESENCE");
        reveal_strlit("android.permission.REQUEST_PASSWORD_COMPLEXITY");
        reveal_strlit("android.permission.RESTART_PACKAGES");
        reveal_strlit("android.permission.SCHEDULE_EXACT_ALARM");
        reveal_strlit("android.permission.SEND_RESPOND_VIA_MESSAGE");
        reveal_strlit("android.permission.SEND_SMS");
        reveal_strlit("android.permission.SET_ALARM");
        reveal_strlit("android.permission.SET_ALWAYS_FINISH");
        reveal_strlit("android.permission.SET_ANIMATION_SCALE");
        reveal_strlit("android.permission.SET_DEBUG_APP");
        reveal_strlit("android.permission.SET_PREFERRED_APPLICATIONS");
        reveal_strlit("android.permission.SET_PROCESS_LIMIT");
        reveal_strlit("android.permission.SET_TIME");
        reveal_strlit("android.permission.SET_TIME_ZONE");
        reveal_strlit("android.permission.SET_WALLPAPER");
        reveal_strlit("android.permission.SET_WALLPAPER_HINTS");
        reveal_strlit("android.permission.SIGNAL_PERSISTENT_PROCESSES");
        reveal_strlit("android.permission.SMS_FINANCIAL_TRANSACTIONS");
        reveal_strlit("android.permission.START_FOREGROUND_SERVICES_FROM_BACKGROUND");
        reveal_strlit("android.permission.START_VIEW_PERMISSION_USAGE");
        reveal_strlit("android.permission.STATUS_BAR");
        reveal_strlit("android.permission.SYSTEM_ALERT_WINDOW");
        reveal_strlit("android.permission.TRANSMIT_IR");
        reveal_strlit("android.permission.UNINSTALL_SHORTCUT");
        reveal_strlit("android.permission.UPDATE_DEVICE_STATS");
        reveal_strlit("android.permission.UPDATE_PACKAGES_WITHOUT_USER_ACTION");
        reveal_strlit("android.permission.USE_BIOMETRIC");
        reveal_strlit("android.permission.USE_FINGERPRINT");
        reveal_strlit("android.permission.USE_FULL_SCREEN_INTENT");
        reveal_strlit("android.permission.USE_ICC_AUTH_WITH_DEVICE_IDENTIFIER");
        reveal_strlit("android.permission.USE_SIP");
        reveal_strlit("android.permission.UWB_RANGING");
        reveal_strlit("android.permission.VIBRATE");
        reveal_strlit("android.permission.WAKE_LOCK");
        reveal_strlit("android.permission.WRITE_APN_SETTINGS");
        reveal_strlit("android.permission.WRITE_CALENDAR");
        reveal_strlit("android.permission.WRITE_CALL_LOG");
        reveal_strlit("android.permission.WRITE_CONTACTS");
        reveal_strlit("android.permission.WRITE_EXTERNAL_STORAGE");
        reveal_strlit("android.permission.WRITE_GSERVICES");
        reveal_strlit("android.permission.WRITE_SECURE_SETTINGS");
        reveal_strlit("android.permission.WRITE_SETTINGS");
        reveal_strlit("android.permission.WRITE_SYNC_SETTINGS");
        reveal_strlit("android.permission.WRITE_VOICEMAIL");
        let mine = self.name();
        let theirs = other.name();
        assert(mine.len() == theirs.len());
        assert(mine[19] == theirs[19]);
        assert(mine[26] == theirs[26]);
        assert(mine[27] == theirs[27]);
        assert(mine[28] == theirs[28]);
    }
}

} // verus!
