//! What runs commands in a session.
use crate::command::{Command, CommandView};
use crate::error::WebDriverResult;
use crate::json::JsonValue;
use crate::reply;
use crate::reply::{read_reply, unit_reply, FromValue};
use crate::types::SessionId;
use vstd::prelude::*;

verus! {

/// What runs commands in a session.
pub trait Driver: Sized {
    /// The session that the commands are run in.
    spec fn id(&self) -> Seq<char>;

    /// Whether `reply` is what may be answered to the command.
    spec fn may_answer(&self, command: CommandView, reply: WebDriverResult<JsonValue>) -> bool;

    /// The session that the commands are run in.
    fn session_id(&self) -> (r: &SessionId)
        ensures
            r@ == self.id(),
    ;

    /// Convenience wrapper for running WebDriver commands.
    fn cmd(&self, command: Command) -> (r: WebDriverResult<JsonValue>)
        ensures
            self.may_answer(command@, r),
    ;
}

/// Whether `r` may be what the command comes to.
pub open spec fn runs<D: Driver>(d: D, command: CommandView, r: WebDriverResult<()>) -> bool {
    exists|reply: WebDriverResult<JsonValue>| #[trigger]
        d.may_answer(command, reply) && reply::unit_result(reply, r)
}

/// Whether `r` may be what is read from the answer to the command.
pub open spec fn answers<D: Driver, T: FromValue>(
    d: D,
    command: CommandView,
    r: WebDriverResult<T>,
) -> bool {
    exists|reply: WebDriverResult<JsonValue>| #[trigger]
        d.may_answer(command, reply) && reply::read_result(reply, r)
}

/// Runs a command.
pub fn run_command<D: Driver>(d: &D, command: Command) -> (r: WebDriverResult<()>)
    ensures
        runs(*d, command@, r),
{
    unit_reply(d.cmd(command))
}

/// Runs a command, and reads the answer.
pub fn read_command<D: Driver, T: FromValue>(d: &D, command: Command) -> (r: WebDriverResult<T>)
    ensures
        answers(*d, command@, r),
{
    read_reply(d.cmd(command))
}

/// A line to a session, over which commands go one after the other. What the session answers may
/// be another thing after every command.
pub trait Line: Sized {
    /// Whether a command can make `after` of the line `before`, with the answer `reply`.
    spec fn said(
        before: Self,
        after: Self,
        command: CommandView,
        reply: WebDriverResult<JsonValue>,
    ) -> bool;

    /// Runs a command.
    fn say(&mut self, command: Command) -> (r: WebDriverResult<JsonValue>)
        ensures
            Self::said(*old(self), *final(self), command@, r),
    ;
}

/// The line that a driver has to its session. What the session has become does not show in it.
#[derive(Debug)]
pub struct DriverLine<'a, D> {
    pub driver: &'a D,
}

impl<'a, D: Driver> Line for DriverLine<'a, D> {
    open spec fn said(
        before: Self,
        after: Self,
        command: CommandView,
        reply: WebDriverResult<JsonValue>,
    ) -> bool {
        after == before && before.driver.may_answer(command, reply)
    }

    fn say(&mut self, command: Command) -> (r: WebDriverResult<JsonValue>) {
        self.driver.cmd(command)
    }
}

/// The line that a driver has to its session.
pub open spec fn line_of<'a, D>(d: &'a D) -> DriverLine<'a, D> {
    DriverLine { driver: d }
}

/// Whether `r` may be what the command comes to over a line, which it makes `after` of.
pub open spec fn does<L: Line>(
    before: L,
    after: L,
    command: CommandView,
    r: WebDriverResult<()>,
) -> bool {
    exists|reply: WebDriverResult<JsonValue>| #[trigger]
        L::said(before, after, command, reply) && reply::unit_result(reply, r)
}

/// Whether `r` may be what is read from the answer to the command over a line, which it makes
/// `after` of.
pub open spec fn hears<L: Line, T: FromValue>(
    before: L,
    after: L,
    command: CommandView,
    r: WebDriverResult<T>,
) -> bool {
    exists|reply: WebDriverResult<JsonValue>| #[trigger]
        L::said(before, after, command, reply) && reply::read_result(reply, r)
}

/// Runs a command over a line.
pub fn run_over<L: Line>(line: &mut L, command: Command) -> (r: WebDriverResult<()>)
    ensures
        does(*old(line), *final(line), command@, r),
{
    unit_reply(line.say(command))
}

/// Runs a command over a line, and reads the answer.
pub fn read_over<L: Line, T: FromValue>(line: &mut L, command: Command) -> (r: WebDriverResult<T>)
    ensures
        hears(*old(line), *final(line), command@, r),
{
    read_reply(line.say(command))
}

} // verus!
