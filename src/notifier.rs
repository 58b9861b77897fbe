//! The dispatcher: decides, for each notification, which command line (if
//! any) is to be launched. Launching it, without waiting for it, is left to
//! the caller.
use vstd::prelude::*;

use crate::notification::UserNotification;

verus! {

/// What notifying about one event takes.
#[derive(Debug, Clone, PartialEq)]
pub enum NotifyAction {
    /// No command is configured, or it is empty: nothing is launched.
    Skip,
    /// Launch this command line and do not wait for it: the program first,
    /// then its arguments, the last one being the event's JSON.
    Launch(Vec<String>),
}

impl NotifyAction {
    /// The command line to launch, if any.
    pub open spec fn line(&self) -> Option<Seq<Seq<char>>> {
        match self {
            NotifyAction::Skip => None,
            NotifyAction::Launch(line) => Some(line.deep_view()),
        }
    }
}

/// The command line for `payload`: the configured command followed by the
/// payload, or none when no command, or an empty one, is configured.
pub open spec fn launch_line(command: Option<Seq<Seq<char>>>, payload: Seq<char>) -> Option<
    Seq<Seq<char>>,
> {
    match command {
        Some(c) => if c.len() > 0 {
            Some(c.push(payload))
        } else {
            None
        },
        None => None,
    }
}

/// Whether a command that can be launched is configured.
pub open spec fn has_target(command: Option<Seq<Seq<char>>>) -> bool {
    command matches Some(c) && c.len() > 0
}

/// Sends notifications to a program configured by the user.
///
/// The program is invoked with a JSON payload as its last argument for each
/// notification event.
#[derive(Debug, Clone)]
pub struct UserNotifier {
    notify_command: Option<Vec<String>>,
}

impl UserNotifier {
    /// The configured command: the program, then its fixed arguments.
    pub closed spec fn command(&self) -> Option<Seq<Seq<char>>> {
        self.notify_command.deep_view()
    }

    /// A notifier for the given command. The command is a vector of strings,
    /// the program first and its arguments after it; the JSON payload is
    /// appended as the last argument. It is kept as given: an empty one
    /// launches nothing.
    pub fn new(notify: Option<Vec<String>>) -> (r: Self)
        ensures
            r.command() == notify.deep_view(),
    {
        UserNotifier { notify_command: notify }
    }

    /// The command line that delivers `payload`, or `None` when no command,
    /// or an empty one, is configured.
    pub fn command_for(&self, payload: String) -> (r: Option<Vec<String>>)
        ensures
            r.deep_view() == launch_line(self.command(), payload@),
    {
        match &self.notify_command {
            Some(command) => {
                if command.len() == 0 {
                    return None;
                }
                let mut line = command.clone();
                let ghost start = line.deep_view();
                line.push(payload);
                proof {
                    assert(start =~= command.deep_view());
                    assert(line.deep_view() =~= start.push(payload@));
                }
                Some(line)
            },
            None => None,
        }
    }

    /// Decides what notifying about `notification` takes. With no command,
    /// or an empty one, nothing is launched. Otherwise the command is to be
    /// launched once, with the notification's JSON as its last argument.
    /// Never an error for the caller.
    pub fn notify(&self, notification: &UserNotification) -> (r: NotifyAction)
        ensures
            r is Skip <==> !has_target(self.command()),
            r.line() == launch_line(self.command(), notification.json()),
    {
        if !self.has_command() {
            return NotifyAction::Skip;
        }
        match notification.to_json() {
            Ok(json) => match self.command_for(json) {
                Some(line) => NotifyAction::Launch(line),
                None => NotifyAction::Skip,
            },
            Err(_) => NotifyAction::Skip,
        }
    }

    /// Whether a command that can be launched is configured.
    pub fn has_command(&self) -> (r: bool)
        ensures
            r == has_target(self.command()),
    {
        match &self.notify_command {
            Some(command) => command.len() > 0,
            None => false,
        }
    }
}

impl Default for UserNotifier {
    /// A notifier with no command: it launches nothing.
    fn default() -> (r: Self)
        ensures
            r.command() is None,
    {
        UserNotifier { notify_command: None }
    }
}

/// How many of the events get a command line to launch: by the contract of
/// `notify`, how many processes calls of `notify` on the events, in order,
/// start.
pub open spec fn launch_count(command: Option<Seq<Seq<char>>>, events: Seq<UserNotification>) -> nat
    decreases events.len(),
{
    if events.len() == 0 {
        0
    } else {
        launch_count(command, events.drop_last()) + if launch_line(
            command,
            events.last().json(),
        ) is Some {
            1nat
        } else {
            0nat
        }
    }
}

/// With no command, or an empty one, `notify` launches nothing for any
/// sequence of events.
pub proof fn lemma_no_target_no_launch(command: Option<Seq<Seq<char>>>, events: Seq<UserNotification>)
    requires
        !has_target(command),
    ensures
        launch_count(command, events) == 0,
    decreases events.len(),
{
    if events.len() > 0 {
        lemma_no_target_no_launch(command, events.drop_last());
    }
}

/// With a command of one or more words (`["echo"]`, say), `notify` launches
/// exactly one command line per event: the command followed by the event's
/// JSON as the last argument.
pub proof fn lemma_one_launch_per_event(command: Seq<Seq<char>>, events: Seq<UserNotification>)
    requires
        command.len() > 0,
    ensures
        launch_count(Some(command), events) == events.len(),
        forall|i: int|
            0 <= i < events.len() ==> #[trigger] launch_line(Some(command), events[i].json())
                == Some(command.push(events[i].json())),
    decreases events.len(),
{
    if events.len() > 0 {
        lemma_one_launch_per_event(command, events.drop_last());
    }
}

} // verus!
