use vstd::prelude::*;

verus! {

/// The line announcing that the bot is online under the given user name.
pub fn connected_message(user_name: &str) -> (r: String)
    ensures
        r@ == user_name@ + " is connected!"@,
{
    let mut r = String::from_str(user_name);
    r.append(" is connected!");
    r
}

/// The report of the slash commands that were registered, given the text
/// that describes the registration's outcome.
pub fn commands_report(outcome: &str) -> (r: String)
    ensures
        r@ == "I now have the following guild slash commands: \n"@ + outcome@,
{
    let mut r = String::from_str("I now have the following guild slash commands: \n");
    r.append(outcome);
    r
}

/// The message sent to the error channel when answering a command failed,
/// given the text that describes the failure.
pub fn error_report(details: &str) -> (r: String)
    ensures
        r@ == "Error line 57 \n "@ + details@,
{
    let mut r = String::from_str("Error line 57 \n ");
    r.append(details);
    r
}

} // verus!
