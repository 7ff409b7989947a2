use vstd::prelude::*;
use crate::pair::{L2, bad_data_reply, bad_data_text, price_reply_text, quote_reply, quote_reply_text};
use crate::json::{json_member, is_simple_object, object_text};
use crate::request::InfoRequest;
use crate::text::str_eq;
use crate::chain::{Chain, eq_ignore_ascii_case, law_from_name, law_names_without_slash};

verus! {

/// The address of the service's description of a pair.
pub open spec fn pair_url_text(chain: Seq<char>, address: Seq<char>) -> Seq<char> {
    "https://api.dexscreener.com/latest/dex/pairs/"@ + chain + "/"@ + address
}

/// Builds the address of the service's description of a pair.
pub fn pair_url(chain: &str, address: &str) -> (r: String)
    ensures
        r@ == pair_url_text(chain@, address@),
{
    let mut r = String::from_str("https://api.dexscreener.com/latest/dex/pairs/");
    r.append(chain);
    r.append("/");
    r.append(address);
    r
}

/// The status line of a successful response.
pub open spec fn ok_status() -> Seq<char> {
    "200 OK"@
}

/// Tells whether a response status, written as code and reason, is success.
pub fn is_ok_status(status: &str) -> (r: bool)
    ensures
        r == (status@ == ok_status()),
{
    str_eq(status, "200 OK")
}

/// The reply when the service cannot be reached.
pub open spec fn unreachable_text() -> Seq<char> {
    "The dexscreener api can not be reached"@
}

/// The reply when the service does not return the pair.
pub open spec fn not_found_text() -> Seq<char> {
    "This pair can not be retrieved from dexscreener, make sure you write it down correctly"@
}

/// How far a price request has come.
#[derive(Clone, Copy, Debug, PartialEq, Eq, Structural)]
pub enum Stage {
    /// The pair was asked for; the response has not come.
    AwaitingResponse,
    /// A successful response came; its body has not been read.
    AwaitingBody,
    /// The reply has been given.
    Finished,
}

/// What happened outside since the last action.
#[derive(Clone, Debug)]
pub enum InfoEvent {
    /// The request could not be sent or no response came.
    Unreachable,
    /// A response came, with this status (code and reason).
    Responded { status: String },
    /// The body of the response is not a list of pairs.
    Unparsable,
    /// The body lists pairs; this is the first, with the text of the price
    /// to show for it.
    Quote { pair: L2, price_text: String },
}

/// What is to be done next.
#[derive(Clone, Debug)]
pub enum InfoAction {
    /// Ask the service for this address.
    Fetch { url: String },
    /// Read the body of the response; the price to report is the inverted
    /// one when `invert` holds.
    ReadBody { invert: bool },
    /// Send this reply; the request is done.
    Reply { text: String },
}

/// The events that a stage can take.
pub open spec fn stage_accepts(stage: Stage, event: InfoEvent) -> bool {
    match stage {
        Stage::AwaitingResponse => event is Unreachable || event is Responded,
        Stage::AwaitingBody => event is Unparsable || event is Quote,
        Stage::Finished => false,
    }
}

/// The stage that an event leads to.
pub open spec fn next_stage(stage: Stage, event: InfoEvent) -> Stage {
    match event {
        InfoEvent::Responded { status } => if status@ == ok_status() {
            Stage::AwaitingBody
        } else {
            Stage::Finished
        },
        _ => Stage::Finished,
    }
}

/// The reply that an event which finishes a request gives.
pub open spec fn reply_text(invert: bool, event: InfoEvent) -> Seq<char> {
    match event {
        InfoEvent::Unreachable => unreachable_text(),
        InfoEvent::Responded { .. } => not_found_text(),
        InfoEvent::Unparsable => bad_data_text(),
        InfoEvent::Quote { pair, price_text } => quote_reply_text(invert, pair, price_text@),
    }
}

/// A price request in progress.
#[derive(Clone, Debug)]
pub struct InfoFlow {
    pub request: InfoRequest,
    pub stage: Stage,
}

impl InfoFlow {
    /// Starts a request: the first action asks the service for the pair.
    pub fn start(request: InfoRequest) -> (r: (InfoFlow, InfoAction))
        ensures
            r.0.request == request,
            r.0.stage == Stage::AwaitingResponse,
            r.1 matches InfoAction::Fetch { url } && url@ == pair_url_text(
                request.chain@,
                request.address@,
            ),
    {
        let url = pair_url(request.chain.as_str(), request.address.as_str());
        (InfoFlow { request, stage: Stage::AwaitingResponse }, InfoAction::Fetch { url })
    }

    /// Takes the next event and says what to do next.
    pub fn step(&mut self, event: InfoEvent) -> (r: InfoAction)
        requires
            stage_accepts(old(self).stage, event),
        ensures
            final(self).request == old(self).request,
            final(self).stage == next_stage(old(self).stage, event),
            final(self).stage == Stage::AwaitingBody ==> r == (InfoAction::ReadBody {
                invert: old(self).request.invert,
            }),
            final(self).stage == Stage::Finished ==> (r matches InfoAction::Reply { text } && text@
                == reply_text(old(self).request.invert, event)),
            event matches InfoEvent::Quote { pair, price_text } ==> (r matches InfoAction::Reply {
                text,
            } && text@ == quote_reply_text(old(self).request.invert, pair, price_text@)),
            event matches InfoEvent::Quote { pair, price_text } ==> forall|
                ms: Seq<(Seq<char>, Seq<char>)>,
                i: int,
            |
                #![trigger object_text(ms), ms[i]]
                is_simple_object(ms) && pair.volume@ == object_text(ms) && 0 <= i < ms.len()
                    && ms[i].0 == "h24"@ ==> (r matches InfoAction::Reply { text } && text@
                    == price_reply_text(
                    old(self).request.invert,
                    price_text@,
                    ms[i].1,
                    pair.price_change.h24@,
                )),
    {
        match event {
            InfoEvent::Unreachable => {
                self.stage = Stage::Finished;
                InfoAction::Reply { text: String::from_str("The dexscreener api can not be reached") }
            },
            InfoEvent::Responded { status } => {
                if is_ok_status(status.as_str()) {
                    self.stage = Stage::AwaitingBody;
                    InfoAction::ReadBody { invert: self.request.invert }
                } else {
                    self.stage = Stage::Finished;
                    InfoAction::Reply {
                        text: String::from_str(
                            "This pair can not be retrieved from dexscreener, make sure you write it down correctly",
                        ),
                    }
                }
            },
            InfoEvent::Unparsable => {
                self.stage = Stage::Finished;
                InfoAction::Reply { text: bad_data_reply() }
            },
            InfoEvent::Quote { pair, price_text } => {
                self.stage = Stage::Finished;
                InfoAction::Reply {
                    text: quote_reply(self.request.invert, &pair, price_text.as_str()),
                }
            },
        }
    }
}

/// Every request is answered with exactly one reply: the first event either
/// finishes it or leads to reading the body, the next event finishes it, and
/// a finished request takes no further event.
pub proof fn law_one_reply(first: InfoEvent, second: InfoEvent, later: InfoEvent)
    requires
        stage_accepts(Stage::AwaitingResponse, first),
    ensures
        next_stage(Stage::AwaitingResponse, first) == Stage::Finished || next_stage(
            Stage::AwaitingResponse,
            first,
        ) == Stage::AwaitingBody,
        next_stage(Stage::AwaitingResponse, first) == Stage::AwaitingBody && stage_accepts(
            Stage::AwaitingBody,
            second,
        ) ==> next_stage(Stage::AwaitingBody, second) == Stage::Finished,
        !stage_accepts(Stage::Finished, later),
{
}

/// The body is read, and so a price is reported, only after a response
/// whose status is `200 OK`.
pub proof fn law_body_after_ok(event: InfoEvent)
    ensures
        next_stage(Stage::AwaitingResponse, event) == Stage::AwaitingBody ==> (event matches InfoEvent::Responded { status } && status@ == ok_status()),
{
}

/// The address asked for determines the chain and the pair address, for
/// chains whose text holds no `/`.
pub proof fn law_pair_url_injective(c1: Seq<char>, a1: Seq<char>, c2: Seq<char>, a2: Seq<char>)
    requires
        !c1.contains('/'),
        !c2.contains('/'),
        pair_url_text(c1, a1) == pair_url_text(c2, a2),
    ensures
        c1 == c2,
        a1 == a2,
{
    let p = "https://api.dexscreener.com/latest/dex/pairs/"@;
    let s = "/"@;
    reveal_strlit("/");
    let u1 = c1 + s + a1;
    let u2 = c2 + s + a2;
    assert(pair_url_text(c1, a1) =~= p + u1);
    assert(pair_url_text(c2, a2) =~= p + u2);
    assert(u1 =~= (p + u1).subrange(p.len() as int, (p + u1).len() as int));
    assert(u2 =~= (p + u2).subrange(p.len() as int, (p + u2).len() as int));
    assert(u1 == u2);
    if c1.len() < c2.len() {
        assert(u1[c1.len() as int] == '/');
        assert(u2[c1.len() as int] == c2[c1.len() as int]);
        assert(c2.contains('/'));
    } else if c2.len() < c1.len() {
        assert(u2[c2.len() as int] == '/');
        assert(u1[c2.len() as int] == c1[c2.len() as int]);
        assert(c1.contains('/'));
    }
    assert(c1 =~= u1.subrange(0, c1.len() as int));
    assert(c2 =~= u2.subrange(0, c2.len() as int));
    assert(a1 =~= u1.subrange(c1.len() + 1int, u1.len() as int));
    assert(a2 =~= u2.subrange(c2.len() + 1int, u2.len() as int));
}

/// Two requests for chains from the fixed list ask for the same address
/// only when they name the same chain and the same pair address.
pub proof fn law_chain_url_injective(c1: Chain, a1: Seq<char>, c2: Chain, a2: Seq<char>)
    requires
        pair_url_text(c1.spec_name(), a1) == pair_url_text(c2.spec_name(), a2),
    ensures
        c1 == c2,
        a1 == a2,
{
    law_names_without_slash(c1);
    law_names_without_slash(c2);
    law_pair_url_injective(c1.spec_name(), a1, c2.spec_name(), a2);
    assert(eq_ignore_ascii_case(c1.spec_name(), c2.spec_name()));
    law_from_name(c1.spec_name(), c1);
    law_from_name(c1.spec_name(), c2);
}

/// The reply to a quote shows the price carried by the quote and the `h24`
/// member of the pair's volume, and adds the pair's 24 hour change exactly
/// when the request is not inverted.
pub proof fn law_quote_event_reply(invert: bool, pair: L2, price_text: String, volume: Seq<char>)
    requires
        json_member(pair.volume@, "h24"@) == Some(volume),
    ensures
        invert ==> reply_text(invert, InfoEvent::Quote { pair, price_text })
            == "Price of token:\n$"@ + price_text@ + "\nVolume: $"@ + volume,
        !invert ==> reply_text(invert, InfoEvent::Quote { pair, price_text })
            == "Price of token:\n$"@ + price_text@ + "\nVolume: $"@ + volume + "\n24h Change "@
            + pair.price_change.h24@ + "%"@,
{
}

} // verus!
