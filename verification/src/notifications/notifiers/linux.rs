//! Notifications on Linux: through `notify-send`, or over D-Bus.
//!
//! What is computed here is what the programs are called with and what
//! their answers mean; starting a program and talking to the bus is left
//! to the caller.

use vstd::prelude::*;
use crate::notifications::Notifier;
use crate::text::{str_eq, trim, trimmed, views};

verus! {

/// What `shellwords` makes of `text` so that a shell reads it as one word.
pub uninterp spec fn shell_escaped(text: Seq<char>) -> Seq<char>;

/// `shellwords::escape`: the text with every character that a shell would
/// treat specially escaped. The result is a function of the text.
#[verifier::external_body]
fn shell_escape(text: &str) -> (r: String)
    ensures
        r@ == shell_escaped(text@),
{
    shellwords::escape(text)
}

/// The two texts one after the other.
pub fn joined(left: &str, right: &str) -> (r: String)
    ensures
        r@ == left@ + right@,
{
    let mut text = String::from_str(left);
    text.append(right);
    text
}

/// The argument that offers one action: the label alone where the action
/// has no name, else the name, an equals sign and the label.
pub open spec fn action_flag(name: Seq<char>, label: Seq<char>) -> Seq<char> {
    if name.len() == 0 {
        "--action="@ + label
    } else {
        "--action="@ + name + "="@ + label
    }
}

/// The arguments that offer `actions`, in order.
pub open spec fn action_flags(actions: Seq<(String, String)>) -> Seq<Seq<char>> {
    Seq::new(actions.len(), |i: int| action_flag(actions[i].0@, actions[i].1@))
}

/// The actions as D-Bus takes them: each id followed by its label.
pub open spec fn flat_actions(actions: Seq<(String, String)>) -> Seq<Seq<char>> {
    Seq::new(
        2 * actions.len(),
        |i: int|
            if i % 2 == 0 {
                actions[i / 2].0@
            } else {
                actions[i / 2].1@
            },
    )
}

/// The answer of `notify-send`: the name of the chosen action is what it
/// printed, without the whitespace around it; nothing printed means that
/// no action was chosen.
pub open spec fn chosen(stdout: Seq<char>) -> Option<Seq<char>> {
    if trimmed(stdout).len() == 0 {
        None
    } else {
        Some(trimmed(stdout))
    }
}

/// Legacy notifier for Linux using `notify-send`
#[derive(Debug, Clone, PartialEq, Eq)]
pub struct LinuxLibNotifyNotifier {
    pub notifier: Notifier,
}

impl LinuxLibNotifyNotifier {
    /// The arguments that every call of `notify-send` begins with: the
    /// application name, the title, the message and the urgency.
    pub open spec fn base_arguments(&self) -> Seq<Seq<char>> {
        seq![
            "--app-name="@ + self.notifier.application_name@,
            self.notifier.title@,
            self.notifier.message@,
            "--urgency="@ + self.notifier.urgency@,
        ]
    }

    /// The argument that names the icon, where the notification has one.
    pub open spec fn icon_arguments(&self) -> Seq<Seq<char>> {
        if self.notifier.icon@.len() == 0 {
            Seq::empty()
        } else {
            seq!["--icon="@ + shell_escaped(self.notifier.icon@)]
        }
    }

    /// Wraps the notification.
    pub fn new(notifier: Notifier) -> (r: Self)
        ensures
            r.notifier == notifier,
    {
        Self { notifier }
    }

    fn base(&self) -> (r: Vec<String>)
        ensures
            views(r@) == self.base_arguments(),
    {
        let mut arguments: Vec<String> = Vec::new();
        arguments.push(joined("--app-name=", self.notifier.application_name.as_str()));
        arguments.push(self.notifier.title.clone());
        arguments.push(self.notifier.message.clone());
        arguments.push(joined("--urgency=", self.notifier.urgency.as_str()));
        assert(views(arguments@) =~= self.base_arguments());
        arguments
    }

    fn push_icon(&self, arguments: &mut Vec<String>)
        ensures
            views(final(arguments)@) == views(old(arguments)@) + self.icon_arguments(),
    {
        if !self.notifier.icon.as_str().is_empty() {
            let escaped = shell_escape(self.notifier.icon.as_str());
            arguments.push(joined("--icon=", escaped.as_str()));
        }
        assert(views(arguments@) =~= views(old(arguments)@) + self.icon_arguments());
    }

    /// The arguments of `notify-send` that show the notification.
    pub fn arguments(&self) -> (r: Vec<String>)
        ensures
            views(r@) == self.base_arguments() + self.icon_arguments(),
    {
        let mut arguments = self.base();
        self.push_icon(&mut arguments);
        arguments
    }

    /// The arguments of `notify-send` that show the notification with
    /// `custom_actions` and wait for the user's choice.
    pub fn arguments_with_actions(&self, custom_actions: &Vec<(String, String)>) -> (r: Vec<
        String,
    >)
        ensures
            views(r@) == self.base_arguments() + seq!["--wait"@] + self.icon_arguments()
                + action_flags(custom_actions@),
    {
        let mut arguments = self.base();
        arguments.push(String::from_str("--wait"));
        assert(views(arguments@) =~= self.base_arguments() + seq!["--wait"@]);
        self.push_icon(&mut arguments);
        let ghost head = views(arguments@);
        let mut i: usize = 0;
        assert(views(arguments@) =~= head + action_flags(custom_actions@).take(0));
        while i < custom_actions.len()
            invariant
                i <= custom_actions.len(),
                views(arguments@) == head + action_flags(custom_actions@).take(i as int),
            decreases custom_actions.len() - i,
        {
            let name = custom_actions[i].0.as_str();
            let label = custom_actions[i].1.as_str();
            let flag = if name.is_empty() {
                joined("--action=", label)
            } else {
                let mut text = joined("--action=", name);
                text.append("=");
                text.append(label);
                text
            };
            assert(flag@ == action_flags(custom_actions@)[i as int]);
            let ghost before = arguments@;
            arguments.push(flag);
            assert(views(arguments@) == views(before).push(flag@));
            assert(action_flags(custom_actions@).take(i + 1) == action_flags(custom_actions@).take(
                i as int,
            ).push(flag@));
            assert(views(arguments@) =~= head + action_flags(custom_actions@).take(i + 1));
            i += 1;
        }
        assert(action_flags(custom_actions@).take(custom_actions@.len() as int) == action_flags(
            custom_actions@,
        ));
        arguments
    }

    /// Reads the user's choice from what `notify-send` printed.
    pub fn chosen_action(stdout: &str) -> (r: Option<String>)
        ensures
            match chosen(stdout@) {
                Some(name) => r matches Some(text) && text@ == name,
                None => r is None,
            },
    {
        let name = trim(stdout);
        if name.as_str().is_empty() {
            None
        } else {
            Some(name)
        }
    }
}

/// Notifier for Linux using modern D-Bus connections
#[derive(Debug, Clone, PartialEq, Eq)]
pub struct LinuxDBusNotifier {
    pub notifier: Notifier,
}

impl LinuxDBusNotifier {
    /// Wraps the notification.
    pub fn new(notifier: Notifier) -> (r: Self)
        ensures
            r.notifier == notifier,
    {
        Self { notifier }
    }

    /// The actions as the bus takes them: each id followed by its label.
    pub fn action_list(custom_actions: Vec<(String, String)>) -> (r: Vec<String>)
        ensures
            views(r@) == flat_actions(custom_actions@),
    {
        let mut actions: Vec<String> = Vec::new();
        let mut i: usize = 0;
        assert(views(actions@) =~= flat_actions(custom_actions@).take(0));
        while i < custom_actions.len()
            invariant
                i <= custom_actions.len(),
                views(actions@) == flat_actions(custom_actions@).take(2 * i),
            decreases custom_actions.len() - i,
        {
            let ghost before = actions@;
            let id = custom_actions[i].0.clone();
            let label = custom_actions[i].1.clone();
            actions.push(id);
            actions.push(label);
            assert(views(actions@) == views(before).push(id@).push(label@));
            assert(flat_actions(custom_actions@)[2 * i] == id@);
            assert(flat_actions(custom_actions@)[2 * i + 1] == label@);
            assert(views(actions@) =~= flat_actions(custom_actions@).take(2 * (i + 1)));
            i += 1;
        }
        assert(flat_actions(custom_actions@).take(2 * custom_actions@.len() as int) == flat_actions(
            custom_actions@,
        ));
        actions
    }
}

/// How long the wait for the user's choice lasts, in milliseconds.
pub const ACTION_WAIT_MILLIS: u64 = 30000;

/// What stands for a notification that was closed without a choice.
pub const CLOSED_MARK: &'static str = "__CLOSED__";

/// A signal of the notification service.
#[derive(Debug, Clone, PartialEq, Eq)]
pub enum NotificationSignal {
    /// The user chose `action` on notification `id`.
    ActionInvoked { id: u32, action: String },
    /// Notification `id` was closed.
    Closed { id: u32, reason: u32 },
}

/// The wait for the user's choice on one notification.
#[derive(Debug, Clone, PartialEq, Eq)]
pub struct ActionWait {
    pub notification_id: u32,
    pub result: Option<String>,
}

/// What the signal leaves of the result so far: a choice on this
/// notification takes the place of whatever was there; its closing is kept
/// only where nothing was there; signals of other notifications change
/// nothing.
pub open spec fn result_after(
    notification_id: u32,
    result: Option<Seq<char>>,
    signal: NotificationSignal,
) -> Option<Seq<char>> {
    match signal {
        NotificationSignal::ActionInvoked { id, action } => if id == notification_id {
            Some(action@)
        } else {
            result
        },
        NotificationSignal::Closed { id, reason } => if id == notification_id && result is None {
            Some(CLOSED_MARK@)
        } else {
            result
        },
    }
}

/// What the wait has come to: nothing yet, closed without a choice, or a
/// choice.
pub open spec fn outcome_of(result: Option<Seq<char>>) -> Option<Option<Seq<char>>> {
    match result {
        None => None,
        Some(text) => if text == CLOSED_MARK@ {
            Some(None)
        } else {
            Some(Some(text))
        },
    }
}

impl ActionWait {
    /// The result so far.
    pub open spec fn result_text(&self) -> Option<Seq<char>> {
        match self.result {
            Some(text) => Some(text@),
            None => None,
        }
    }

    /// The wait for a choice on the notification with this id.
    pub fn new(notification_id: u32) -> (r: Self)
        ensures
            r.notification_id == notification_id,
            r.result is None,
    {
        ActionWait { notification_id, result: None }
    }

    /// Takes one signal of the notification service.
    pub fn on_signal(&mut self, signal: NotificationSignal)
        ensures
            final(self).notification_id == old(self).notification_id,
            final(self).result_text() == result_after(
                old(self).notification_id,
                old(self).result_text(),
                signal,
            ),
    {
        match signal {
            NotificationSignal::ActionInvoked { id, action } => {
                if id == self.notification_id {
                    self.result = Some(action);
                }
            },
            NotificationSignal::Closed { id, reason } => {
                if id == self.notification_id && self.result.is_none() {
                    self.result = Some(String::from_str(CLOSED_MARK));
                }
            },
        }
    }

    /// What the wait has come to: `None` while nothing happened,
    /// `Some(None)` once the notification was closed without a choice,
    /// and the chosen action otherwise.
    pub fn outcome(&self) -> (r: Option<Option<String>>)
        ensures
            match outcome_of(self.result_text()) {
                None => r is None,
                Some(None) => r == Some(None::<String>),
                Some(Some(action)) => r matches Some(Some(text)) && text@ == action,
            },
    {
        match &self.result {
            None => None,
            Some(text) => {
                if str_eq(text.as_str(), CLOSED_MARK) {
                    Some(None)
                } else {
                    Some(Some(text.clone()))
                }
            },
        }
    }

    /// Whether the wait is over after this many milliseconds.
    pub fn timed_out(elapsed_millis: u64) -> (r: bool)
        ensures
            r == (elapsed_millis >= ACTION_WAIT_MILLIS),
    {
        elapsed_millis >= ACTION_WAIT_MILLIS
    }
}

} // verus!
