use stblib::notifications::notifiers::linux::{
    ActionWait, LinuxDBusNotifier, LinuxLibNotifyNotifier, NotificationSignal, ACTION_WAIT_MILLIS,
};
use stblib::notifications::notifiers::windows::{WindowsLegacyNotifier, WindowsNotifier};
use stblib::notifications::os::OS;
use stblib::notifications::{detect_os, major_of, Backend, Host, NotificationError, Notifier};

fn notifier(icon: &str) -> Notifier {
    Notifier::new("Title", "Message", "App", "critical", icon, None, 1000, true)
}

fn pair(a: &str, b: &str) -> (String, String) {
    (a.to_string(), b.to_string())
}

#[test]
fn new_notifier_is_undefined() {
    let n = notifier("icon.png");
    assert_eq!(n.title, "Title");
    assert_eq!(n.message, "Message");
    assert_eq!(n.application_name, "App");
    assert_eq!(n.urgency, "critical");
    assert_eq!(n.icon, "icon.png");
    assert_eq!(n.audio, None);
    assert_eq!(n.timeout, 1000);
    assert!(n.enable_logging);
    assert_eq!(n.platform_notifier.os, &OS::Undefined);
    assert!(!n.platform_notifier.bypass_windows_version_detection);
    assert_eq!(n.platform_notifier.windows_version_override, None);
    assert!(n.actions.is_empty());
}

#[test]
fn default_notifier() {
    let n = Notifier::default();
    assert_eq!(n.title, "Default Title");
    assert_eq!(n.message, "Default Message");
    assert_eq!(n.application_name, "Rust Application");
    assert_eq!(n.urgency, "normal");
    assert_eq!(n.icon, "");
    assert_eq!(n.audio, None);
    assert_eq!(n.timeout, 5000);
    assert!(!n.enable_logging);
    assert_eq!(n.platform_notifier.os, &OS::Undefined);
}

#[test]
fn os_detection() {
    assert_eq!(detect_os("linux", ""), &OS::Linux);
    assert_eq!(detect_os("macos", "14.1"), &OS::MacOS);
    assert_eq!(detect_os("freebsd", "1"), &OS::Unknown);
    assert_eq!(detect_os("windows", "10.0.19045"), &OS::Windows);
    assert_eq!(detect_os("windows", "11"), &OS::Windows);
    assert_eq!(detect_os("windows", "6.1.7601"), &OS::WindowsLegacy);
    assert_eq!(detect_os("windows", "100.1"), &OS::WindowsLegacy);
    assert_eq!(detect_os("windows", ""), &OS::WindowsLegacy);
    assert_eq!(detect_os("Linux", ""), &OS::Unknown);
    assert_eq!(major_of("10.0.19045"), "10");
    assert_eq!(major_of(".5"), "");
    assert_eq!(major_of("7"), "7");
}

#[test]
fn build_settles_the_system_once() {
    let built = notifier("").build_on("windows", "10.0");
    assert_eq!(built.platform_notifier.os, &OS::Windows);
    assert_eq!(built.title, "Title");
    let again = built.build_on("linux", "");
    assert_eq!(again.platform_notifier.os, &OS::Windows);
    let mut chosen = notifier("");
    chosen.platform_notifier.os = &OS::LinuxLibNotify;
    assert_eq!(chosen.build_on("linux", "").platform_notifier.os, &OS::LinuxLibNotify);
}

#[test]
fn backend_choice() {
    let undefined = notifier("");
    assert_eq!(undefined.backend(Host::Linux), Err(NotificationError::UndefinedOS));
    let linux = notifier("").build_on("linux", "");
    assert_eq!(linux.backend(Host::Linux), Ok(Backend::LinuxDBus));
    assert_eq!(linux.backend(Host::Windows), Err(NotificationError::UnsupportedOS));
    assert_eq!(linux.backend(Host::Other), Err(NotificationError::UnsupportedOS));
    assert!(linux.waits_for_actions(Host::Linux));
    assert!(!linux.waits_for_actions(Host::Windows));
    let windows = notifier("").build_on("windows", "11.0");
    assert_eq!(windows.backend(Host::Windows), Ok(Backend::Windows));
    assert_eq!(windows.backend(Host::Linux), Err(NotificationError::UnsupportedOS));
    assert!(!windows.waits_for_actions(Host::Windows));
    let legacy = notifier("").build_on("windows", "6.1");
    assert_eq!(legacy.backend(Host::Windows), Ok(Backend::WindowsLegacy));
    let mac = notifier("").build_on("macos", "");
    assert_eq!(mac.backend(Host::Other), Err(NotificationError::UnsupportedOS));
    let mut libnotify = notifier("");
    libnotify.platform_notifier.os = &OS::LinuxLibNotify;
    assert_eq!(libnotify.backend(Host::Linux), Ok(Backend::LinuxLibNotify));
    assert!(!libnotify.waits_for_actions(Host::Linux));
}

#[test]
fn custom_and_actions() {
    let n = Notifier::custom(notifier("i"));
    assert_eq!(n, notifier("i"));
    let with = n.with_actions(vec![pair("yes", "Yes"), pair("no", "No")]);
    assert_eq!(with.actions, vec![pair("yes", "Yes"), pair("no", "No")]);
    assert_eq!(with.title, "Title");
    let replaced = with.with_actions(vec![]);
    assert!(replaced.actions.is_empty());
}

#[test]
fn error_messages() {
    assert_eq!(NotificationError::UnsupportedOS.message(), "Unsupported operating system");
    assert_eq!(
        NotificationError::UndefinedOS.message(),
        "Undefined operating system. Please run `Notifier::build()` first"
    );
    assert_eq!(
        NotificationError::SendError("bus down".to_string()).message(),
        "Failed to send notification: bus down"
    );
}

#[test]
fn notify_send_arguments() {
    let plain = LinuxLibNotifyNotifier::new(notifier(""));
    assert_eq!(plain.arguments(), vec!["--app-name=App", "Title", "Message", "--urgency=critical"]);
    let with_icon = LinuxLibNotifyNotifier::new(notifier("/tmp/my icon's.png"));
    assert_eq!(
        with_icon.arguments(),
        vec![
            "--app-name=App",
            "Title",
            "Message",
            "--urgency=critical",
            "--icon=/tmp/my\\ icon\\'s.png",
        ]
    );
}

#[test]
fn notify_send_arguments_with_actions() {
    let n = LinuxLibNotifyNotifier::new(notifier("a b"));
    assert_eq!(
        n.arguments_with_actions(&vec![pair("yes", "Yes"), pair("", "Later")]),
        vec![
            "--app-name=App",
            "Title",
            "Message",
            "--urgency=critical",
            "--wait",
            "--icon=a\\ b",
            "--action=yes=Yes",
            "--action=Later",
        ]
    );
    let bare = LinuxLibNotifyNotifier::new(notifier(""));
    assert_eq!(
        bare.arguments_with_actions(&vec![]),
        vec!["--app-name=App", "Title", "Message", "--urgency=critical", "--wait"]
    );
}

#[test]
fn chosen_action_is_the_trimmed_output() {
    assert_eq!(LinuxLibNotifyNotifier::chosen_action("yes\n"), Some("yes".to_string()));
    assert_eq!(LinuxLibNotifyNotifier::chosen_action("  two words \n"), Some("two words".to_string()));
    assert_eq!(LinuxLibNotifyNotifier::chosen_action(""), None);
    assert_eq!(LinuxLibNotifyNotifier::chosen_action(" \n\t"), None);
}

#[test]
fn dbus_action_list_is_flat() {
    assert_eq!(
        LinuxDBusNotifier::action_list(vec![pair("yes", "Yes"), pair("no", "No")]),
        vec!["yes", "Yes", "no", "No"]
    );
    assert_eq!(LinuxDBusNotifier::action_list(vec![]), Vec::<String>::new());
    assert_eq!(LinuxDBusNotifier::new(notifier("")).notifier, notifier(""));
}

#[test]
fn action_wait_takes_signals() {
    let mut wait = ActionWait::new(7);
    assert_eq!(wait.outcome(), None);
    wait.on_signal(NotificationSignal::ActionInvoked { id: 8, action: "other".to_string() });
    wait.on_signal(NotificationSignal::Closed { id: 8, reason: 1 });
    assert_eq!(wait.outcome(), None);
    wait.on_signal(NotificationSignal::ActionInvoked { id: 7, action: "yes".to_string() });
    assert_eq!(wait.outcome(), Some(Some("yes".to_string())));
    wait.on_signal(NotificationSignal::Closed { id: 7, reason: 2 });
    assert_eq!(wait.outcome(), Some(Some("yes".to_string())));
    wait.on_signal(NotificationSignal::ActionInvoked { id: 7, action: "no".to_string() });
    assert_eq!(wait.outcome(), Some(Some("no".to_string())));

    let mut closed = ActionWait::new(1);
    closed.on_signal(NotificationSignal::Closed { id: 1, reason: 2 });
    assert_eq!(closed.result, Some("__CLOSED__".to_string()));
    assert_eq!(closed.outcome(), Some(None));
    closed.on_signal(NotificationSignal::ActionInvoked { id: 1, action: "late".to_string() });
    assert_eq!(closed.outcome(), Some(Some("late".to_string())));
}

#[test]
fn action_wait_times_out_after_thirty_seconds() {
    assert_eq!(ACTION_WAIT_MILLIS, 30000);
    assert!(!ActionWait::timed_out(0));
    assert!(!ActionWait::timed_out(29999));
    assert!(ActionWait::timed_out(30000));
    assert!(ActionWait::timed_out(u64::MAX));
}

#[test]
fn windows_script() {
    let mut n = notifier("C:\\icon.png");
    let silent = WindowsNotifier::new(n.clone());
    assert_eq!(silent.audio(), "<audio silent=\"true\" />");
    let expected = "[Windows.UI.Notifications.ToastNotificationManager, Windows.UI.Notifications, ContentType = WindowsRuntime] | Out-Null
[Windows.UI.Notifications.ToastNotification, Windows.UI.Notifications, ContentType = WindowsRuntime] | Out-Null
[Windows.Data.Xml.Dom.XmlDocument, Windows.Data.Xml.Dom.XmlDocument, ContentType = WindowsRuntime] | Out-Null

$APP_ID = \"App\"

$template = @\"
<toast duration=\"short\"><audio silent=\"true\" /><visual><binding template=\"ToastImageAndText02\"><image id=\"1\" src=\"C:\\icon.png\" /><text id=\"1\">Title</text><text id=\"2\">Message</text></binding></visual></toast>
\"@

$xml = New-Object Windows.Data.Xml.Dom.XmlDocument
$xml.LoadXml($template)
$toast = New-Object Windows.UI.Notifications.ToastNotification $xml
[Windows.UI.Notifications.ToastNotificationManager]::CreateToastNotifier($APP_ID).Show($toast)";
    assert_eq!(silent.script(), expected);
    n.audio = Some("Mail".to_string());
    let loud = WindowsNotifier::new(n.clone());
    assert_eq!(loud.audio(), "<audio src=\"ms-winsoundevent:Notification.Mail\" />");
    assert!(loud.script().contains("<toast duration=\"short\"><audio src=\"ms-winsoundevent:Notification.Mail\" /><visual>"));
    assert_eq!(WindowsLegacyNotifier::new(n.clone()).notifier, n);
}
