//! Desktop notifications on several systems.

pub mod notifiers;
pub mod os;

use vstd::prelude::*;
use crate::notifications::os::OS;
use crate::text::{from_chars, str_eq, to_chars};

verus! {

/// Main notification structure that handles cross-platform notifications
#[derive(Debug, Clone, PartialEq, Eq)]
pub struct Notifier {
    pub title: String,
    pub message: String,
    pub application_name: String,
    pub urgency: String,
    pub icon: String,
    pub audio: Option<String>,
    pub timeout: i32,
    pub enable_logging: bool,
    pub platform_notifier: PlatformSpecificNotifier,
    pub actions: Vec<(String, String)>,
}

/// Internal structure to handle OS-specific notification settings
#[derive(Debug, Clone, PartialEq, Eq)]
pub struct PlatformSpecificNotifier {
    pub os: &'static OS,
    pub bypass_windows_version_detection: bool,
    pub windows_version_override: Option<String>,
}

/// Errors that can occur when sending notifications
#[derive(Debug, Clone, PartialEq, Eq)]
pub enum NotificationError {
    UnsupportedOS,
    UndefinedOS,
    SendError(String),
}

/// The kind of machine that the program was built for.
#[derive(Debug, Clone, Copy, PartialEq, Eq, Structural)]
pub enum Host {
    Linux,
    Windows,
    Other,
}

/// The program that shows a notification.
#[derive(Debug, Clone, Copy, PartialEq, Eq, Structural)]
pub enum Backend {
    LinuxDBus,
    LinuxLibNotify,
    Windows,
    WindowsLegacy,
}

/// The part of a version before its first dot.
pub open spec fn major_version(version: Seq<char>) -> Seq<char>
    decreases version.len(),
{
    if version.len() == 0 || version[0] == '.' {
        Seq::empty()
    } else {
        seq![version[0]] + major_version(version.drop_first())
    }
}

/// The notification system of a machine whose operating system is called
/// `os_name` and, on Windows, has the version `version`.
pub open spec fn detected_os(os_name: Seq<char>, version: Seq<char>) -> OS {
    if os_name == "linux"@ {
        OS::Linux
    } else if os_name == "windows"@ {
        if major_version(version) == "10"@ || major_version(version) == "11"@ {
            OS::Windows
        } else {
            OS::WindowsLegacy
        }
    } else if os_name == "macos"@ {
        OS::MacOS
    } else {
        OS::Unknown
    }
}

/// The backend that shows notifications for `os` in a program built for
/// `host`: a backend exists only on the host it belongs to.
pub open spec fn backend_of(os: OS, host: Host) -> Result<Backend, NotificationError> {
    match os {
        OS::Undefined => Err(NotificationError::UndefinedOS),
        OS::Linux => if host == Host::Linux {
            Ok(Backend::LinuxDBus)
        } else {
            Err(NotificationError::UnsupportedOS)
        },
        OS::LinuxLibNotify => if host == Host::Linux {
            Ok(Backend::LinuxLibNotify)
        } else {
            Err(NotificationError::UnsupportedOS)
        },
        OS::Windows => if host == Host::Windows {
            Ok(Backend::Windows)
        } else {
            Err(NotificationError::UnsupportedOS)
        },
        OS::WindowsLegacy => if host == Host::Windows {
            Ok(Backend::WindowsLegacy)
        } else {
            Err(NotificationError::UnsupportedOS)
        },
        _ => Err(NotificationError::UnsupportedOS),
    }
}

/// The part of a version before its first dot.
pub fn major_of(version: &str) -> (r: String)
    ensures
        r@ == major_version(version@),
{
    let chars = to_chars(version);
    let mut end: usize = 0;
    assert(chars@.skip(0) == chars@);
    assert(chars@.take(0) + major_version(chars@) == major_version(chars@));
    while end < chars.len() && chars[end] != '.'
        invariant
            end <= chars.len(),
            chars@.take(end as int) + major_version(chars@.skip(end as int)) == major_version(
                chars@,
            ),
        decreases chars.len() - end,
    {
        let ghost rest = chars@.skip(end as int);
        assert(rest.drop_first() == chars@.skip(end + 1));
        assert(chars@.take(end + 1) == chars@.take(end as int).push(chars@[end as int]));
        assert(chars@.take(end as int).push(rest[0]) + major_version(rest.drop_first())
            == chars@.take(end as int) + (seq![rest[0]] + major_version(rest.drop_first())));
        end += 1;
    }
    proof {
        let rest = chars@.skip(end as int);
        assert(major_version(rest) == Seq::<char>::empty());
        assert(chars@.take(end as int) + Seq::<char>::empty() == chars@.take(end as int));
    }
    let mut head: Vec<char> = Vec::new();
    let mut i: usize = 0;
    while i < end
        invariant
            i <= end <= chars.len(),
            head@ == chars@.take(i as int),
        decreases end - i,
    {
        head.push(chars[i]);
        assert(chars@.take(i + 1) == chars@.take(i as int).push(chars@[i as int]));
        i += 1;
    }
    from_chars(&head)
}

/// Tells the notification system of a machine from the name of its
/// operating system and, on Windows, its version.
pub fn detect_os(os_name: &str, version: &str) -> (r: &'static OS)
    ensures
        *r == detected_os(os_name@, version@),
{
    if str_eq(os_name, "linux") {
        &OS::Linux
    } else if str_eq(os_name, "windows") {
        let major = major_of(version);
        if str_eq(major.as_str(), "10") || str_eq(major.as_str(), "11") {
            &OS::Windows
        } else {
            &OS::WindowsLegacy
        }
    } else if str_eq(os_name, "macos") {
        &OS::MacOS
    } else {
        &OS::Unknown
    }
}

impl Default for Notifier {
    /// A notification with placeholder texts, normal urgency and five
    /// seconds on screen.
    fn default() -> (r: Self)
        ensures
            r.title@ == "Default Title"@,
            r.message@ == "Default Message"@,
            r.application_name@ == "Rust Application"@,
            r.urgency@ == "normal"@,
            r.icon@ == ""@,
            r.audio is None,
            r.timeout == 5000,
            !r.enable_logging,
            *r.platform_notifier.os == OS::Undefined,
            !r.platform_notifier.bypass_windows_version_detection,
            r.platform_notifier.windows_version_override is None,
            r.actions@.len() == 0,
    {
        Self::new("Default Title", "Default Message", "Rust Application", "normal", "", None, 5000, false)
    }
}

impl Notifier {
    /// Creates a new notification with the specified parameters. Its
    /// system is undefined until `build_on` settles it, and it has no
    /// actions.
    #[must_use]
    pub fn new(
        title: &str,
        message: &str,
        application_name: &str,
        urgency: &str,
        icon_path: &str,
        audio_path: Option<String>,
        timeout: i32,
        enable_logging: bool,
    ) -> (r: Self)
        ensures
            r.title@ == title@,
            r.message@ == message@,
            r.application_name@ == application_name@,
            r.urgency@ == urgency@,
            r.icon@ == icon_path@,
            r.audio == audio_path,
            r.timeout == timeout,
            r.enable_logging == enable_logging,
            *r.platform_notifier.os == OS::Undefined,
            !r.platform_notifier.bypass_windows_version_detection,
            r.platform_notifier.windows_version_override is None,
            r.actions@.len() == 0,
    {
        Self {
            title: String::from_str(title),
            message: String::from_str(message),
            application_name: String::from_str(application_name),
            urgency: String::from_str(urgency),
            icon: String::from_str(icon_path),
            audio: audio_path,
            timeout,
            enable_logging,
            platform_notifier: PlatformSpecificNotifier {
                os: &OS::Undefined,
                bypass_windows_version_detection: false,
                windows_version_override: None,
            },
            actions: Vec::new(),
        }
    }

    /// Settles the notification system for the machine described by
    /// `os_name` and `version`. A system that was chosen before stays.
    pub fn build_on(self, os_name: &str, version: &str) -> (r: Self)
        ensures
            *r.platform_notifier.os == if *self.platform_notifier.os == OS::Undefined {
                detected_os(os_name@, version@)
            } else {
                *self.platform_notifier.os
            },
            r.title == self.title,
            r.message == self.message,
            r.application_name == self.application_name,
            r.urgency == self.urgency,
            r.icon == self.icon,
            r.audio == self.audio,
            r.timeout == self.timeout,
            r.enable_logging == self.enable_logging,
            r.actions == self.actions,
            r.platform_notifier.bypass_windows_version_detection
                == self.platform_notifier.bypass_windows_version_detection,
            r.platform_notifier.windows_version_override
                == self.platform_notifier.windows_version_override,
    {
        let mut notifier = self;
        match notifier.platform_notifier.os {
            OS::Undefined => {
                notifier.platform_notifier.os = detect_os(os_name, version);
            },
            _ => {},
        }
        notifier
    }

    /// Chooses the backend that shows this notification in a program
    /// built for `host`, or says why there is none.
    pub fn backend(&self, host: Host) -> (r: Result<Backend, NotificationError>)
        ensures
            r == backend_of(*self.platform_notifier.os, host),
    {
        match self.platform_notifier.os {
            OS::Undefined => Err(NotificationError::UndefinedOS),
            OS::Linux => match host {
                Host::Linux => Ok(Backend::LinuxDBus),
                _ => Err(NotificationError::UnsupportedOS),
            },
            OS::LinuxLibNotify => match host {
                Host::Linux => Ok(Backend::LinuxLibNotify),
                _ => Err(NotificationError::UnsupportedOS),
            },
            OS::Windows => match host {
                Host::Windows => Ok(Backend::Windows),
                _ => Err(NotificationError::UnsupportedOS),
            },
            OS::WindowsLegacy => match host {
                Host::Windows => Ok(Backend::WindowsLegacy),
                _ => Err(NotificationError::UnsupportedOS),
            },
            _ => Err(NotificationError::UnsupportedOS),
        }
    }

    /// Whether this notification's backend can offer actions and wait for
    /// the user's choice: only the D-Bus backend can. With any other
    /// backend the notification is sent plainly and no choice comes back.
    pub fn waits_for_actions(&self, host: Host) -> (r: bool)
        ensures
            r == (backend_of(*self.platform_notifier.os, host) == Ok::<
                Backend,
                NotificationError,
            >(Backend::LinuxDBus)),
    {
        match self.platform_notifier.os {
            OS::Linux => match host {
                Host::Linux => true,
                _ => false,
            },
            _ => false,
        }
    }

    /// Creates a custom notification from an existing configuration
    #[must_use]
    pub fn custom(notifier: Self) -> (r: Self)
        ensures
            r == notifier,
    {
        notifier
    }

    /// Adds action buttons to the notification: pairs of an id and a
    /// label. They take the place of the actions set before.
    pub fn with_actions(self, actions: Vec<(String, String)>) -> (r: Self)
        ensures
            r.actions == actions,
            r.title == self.title,
            r.message == self.message,
            r.application_name == self.application_name,
            r.urgency == self.urgency,
            r.icon == self.icon,
            r.audio == self.audio,
            r.timeout == self.timeout,
            r.enable_logging == self.enable_logging,
            r.platform_notifier == self.platform_notifier,
    {
        let mut notifier = self;
        notifier.actions = actions;
        notifier
    }
}

impl NotificationError {
    /// The error in words.
    pub fn message(&self) -> (r: String)
        ensures
            match self {
                NotificationError::UnsupportedOS => r@ == "Unsupported operating system"@,
                NotificationError::UndefinedOS => r@
                    == "Undefined operating system. Please run `Notifier::build()` first"@,
                NotificationError::SendError(why) => r@ == "Failed to send notification: "@
                    + why@,
            },
    {
        match self {
            NotificationError::UnsupportedOS => String::from_str("Unsupported operating system"),
            NotificationError::UndefinedOS => String::from_str(
                "Undefined operating system. Please run `Notifier::build()` first",
            ),
            NotificationError::SendError(why) => {
                let mut text = String::from_str("Failed to send notification: ");
                text.append(why.as_str());
                text
            },
        }
    }
}

} // verus!
