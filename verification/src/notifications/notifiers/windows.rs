//! Notifications on Windows: a toast shown by a PowerShell script, or the
//! legacy toast of older versions.
//!
//! What is computed here is the script; running it is left to the caller.

use vstd::prelude::*;
use crate::notifications::Notifier;

verus! {

/// The script up to the application id.
pub const SCRIPT_HEAD: &'static str =
    "[Windows.UI.Notifications.ToastNotificationManager, Windows.UI.Notifications, ContentType = WindowsRuntime] | Out-Null\n[Windows.UI.Notifications.ToastNotification, Windows.UI.Notifications, ContentType = WindowsRuntime] | Out-Null\n[Windows.Data.Xml.Dom.XmlDocument, Windows.Data.Xml.Dom.XmlDocument, ContentType = WindowsRuntime] | Out-Null\n\n$APP_ID = \"";

/// The script between the application id and the audio element.
pub const SCRIPT_TOAST: &'static str = "\"\n\n$template = @\"\n<toast duration=\"short\">";

/// The script between the audio element and the icon.
pub const SCRIPT_IMAGE: &'static str =
    "<visual><binding template=\"ToastImageAndText02\"><image id=\"1\" src=\"";

/// The script between the icon and the title.
pub const SCRIPT_TITLE: &'static str = "\" /><text id=\"1\">";

/// The script between the title and the message.
pub const SCRIPT_MESSAGE: &'static str = "</text><text id=\"2\">";

/// The script behind the message.
pub const SCRIPT_TAIL: &'static str =
    "</text></binding></visual></toast>\n\"@\n\n$xml = New-Object Windows.Data.Xml.Dom.XmlDocument\n$xml.LoadXml($template)\n$toast = New-Object Windows.UI.Notifications.ToastNotification $xml\n[Windows.UI.Notifications.ToastNotificationManager]::CreateToastNotifier($APP_ID).Show($toast)";

/// The audio element of a toast: silent without a sound, else the system
/// sound of that name.
pub open spec fn audio_element(audio: Option<String>) -> Seq<char> {
    match audio {
        None => "<audio silent=\"true\" />"@,
        Some(sound) => "<audio src=\"ms-winsoundevent:Notification."@ + sound@ + "\" />"@,
    }
}

/// The PowerShell script that shows a toast for `notifier`.
pub open spec fn toast_script(notifier: Notifier) -> Seq<char> {
    SCRIPT_HEAD@ + notifier.application_name@ + SCRIPT_TOAST@ + audio_element(notifier.audio)
        + SCRIPT_IMAGE@ + notifier.icon@ + SCRIPT_TITLE@ + notifier.title@ + SCRIPT_MESSAGE@
        + notifier.message@ + SCRIPT_TAIL@
}

/// WindowsNotifier is a notifier for Windows that uses PowerShell to send
/// notifications.
#[derive(Debug, Clone, PartialEq, Eq)]
pub struct WindowsNotifier {
    pub notifier: Notifier,
}

impl WindowsNotifier {
    /// Wraps the notification.
    pub fn new(notifier: Notifier) -> (r: Self)
        ensures
            r.notifier == notifier,
    {
        Self { notifier }
    }

    /// The audio element of the toast.
    pub fn audio(&self) -> (r: String)
        ensures
            r@ == audio_element(self.notifier.audio),
    {
        match &self.notifier.audio {
            None => String::from_str("<audio silent=\"true\" />"),
            Some(sound) => {
                let mut text = String::from_str("<audio src=\"ms-winsoundevent:Notification.");
                text.append(sound.as_str());
                text.append("\" />");
                text
            },
        }
    }

    /// The PowerShell script that shows the notification.
    pub fn script(&self) -> (r: String)
        ensures
            r@ == toast_script(self.notifier),
    {
        let audio = self.audio();
        let mut text = String::from_str(SCRIPT_HEAD);
        text.append(self.notifier.application_name.as_str());
        text.append(SCRIPT_TOAST);
        text.append(audio.as_str());
        text.append(SCRIPT_IMAGE);
        text.append(self.notifier.icon.as_str());
        text.append(SCRIPT_TITLE);
        text.append(self.notifier.title.as_str());
        text.append(SCRIPT_MESSAGE);
        text.append(self.notifier.message.as_str());
        text.append(SCRIPT_TAIL);
        text
    }
}

/// Legacy notifier for compatibility with older Windows versions. Not
/// recommended for new applications.
#[derive(Debug, Clone, PartialEq, Eq)]
pub struct WindowsLegacyNotifier {
    pub notifier: Notifier,
}

impl WindowsLegacyNotifier {
    /// Wraps the notification.
    pub fn new(notifier: Notifier) -> (r: Self)
        ensures
            r.notifier == notifier,
    {
        Self { notifier }
    }
}

} // verus!
