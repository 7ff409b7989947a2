use vstd::prelude::*;
use crate::json::{json_member, json_member_text, is_simple_object, object_text};

verus! {

/// The price changes of a pair over the last 24 hours, 6 hours, hour and five
/// minutes, each as the decimal text of the figure.
#[derive(Clone, Debug)]
pub struct Change {
    pub h24: String,
    pub h6: String,
    pub h1: String,
    pub m5: String,
}

/// One trading pair as the dexscreener service describes it. Fields that the
/// service sends as arbitrary JSON (`liquidity`, `volume`, `basetoken`) hold
/// the JSON text of that value.
#[derive(Clone, Debug)]
pub struct L2 {
    pub chain_id: String,
    pub dex_id: String,
    pub url: String,
    pub pair_address: String,
    pub price_native: String,
    pub price_usd: String,
    pub price_change: Change,
    pub liquidity: String,
    pub volume: String,
    pub basetoken: String,
}

/// The reply shown for a pair: its price and 24 hour volume, and, unless the
/// pair is inverted, its 24 hour price change.
pub open spec fn price_reply_text(
    invert: bool,
    price: Seq<char>,
    volume: Seq<char>,
    change: Seq<char>,
) -> Seq<char> {
    let head = "Price of token:\n$"@ + price + "\nVolume: $"@ + volume;
    if invert {
        head
    } else {
        head + "\n24h Change "@ + change + "%"@
    }
}

/// The reply when the service's data cannot be read.
pub open spec fn bad_data_text() -> Seq<char> {
    "Something went wrong with parsing the data"@
}

/// The reply for a pair, given the text of the price to show: the volume is
/// the `h24` member of the pair's volume; where the volume is not readable
/// JSON the data counts as unreadable.
pub open spec fn quote_reply_text(invert: bool, pair: L2, price: Seq<char>) -> Seq<char> {
    match json_member(pair.volume@, "h24"@) {
        Some(volume) => price_reply_text(invert, price, volume, pair.price_change.h24@),
        None => bad_data_text(),
    }
}

/// Returns the reply text for unreadable data.
pub fn bad_data_reply() -> (r: String)
    ensures
        r@ == bad_data_text(),
{
    String::from_str("Something went wrong with parsing the data")
}

/// Builds the reply for a price, a volume and a price change.
pub fn price_reply(invert: bool, price: &str, volume: &str, change: &str) -> (r: String)
    ensures
        r@ == price_reply_text(invert, price@, volume@, change@),
{
    let mut r = String::from_str("Price of token:\n$");
    r.append(price);
    r.append("\nVolume: $");
    r.append(volume);
    if !invert {
        r.append("\n24h Change ");
        r.append(change);
        r.append("%");
    }
    r
}

/// Builds the reply for a pair, given the text of the price to show.
pub fn quote_reply(invert: bool, pair: &L2, price: &str) -> (r: String)
    ensures
        r@ == quote_reply_text(invert, *pair, price@),
        forall|ms: Seq<(Seq<char>, Seq<char>)>, i: int|
            #![trigger object_text(ms), ms[i]]
            is_simple_object(ms) && pair.volume@ == object_text(ms) && 0 <= i < ms.len() && ms[i].0
                == "h24"@ ==> r@ == price_reply_text(invert, price@, ms[i].1, pair.price_change.h24@),
        forall|ms: Seq<(Seq<char>, Seq<char>)>|
            #![trigger object_text(ms)]
            is_simple_object(ms) && pair.volume@ == object_text(ms) && (forall|i: int|
                0 <= i < ms.len() ==> #[trigger] ms[i].0 != "h24"@) ==> r@ == price_reply_text(
                invert,
                price@,
                "null"@,
                pair.price_change.h24@,
            ),
{
    let found = json_member_text(pair.volume.as_str(), "h24");
    match found {
        Some(volume) => price_reply(invert, price, volume.as_str(), pair.price_change.h24.as_str()),
        None => bad_data_reply(),
    }
}

/// The reply for a pair shows the price it is given and the `h24` member of
/// the pair's volume; it adds the pair's 24 hour change exactly when the pair
/// is not inverted.
pub proof fn law_quote_reply(invert: bool, pair: L2, price: Seq<char>, volume: Seq<char>)
    requires
        json_member(pair.volume@, "h24"@) == Some(volume),
    ensures
        invert ==> quote_reply_text(invert, pair, price) == "Price of token:\n$"@ + price
            + "\nVolume: $"@ + volume,
        !invert ==> quote_reply_text(invert, pair, price) == "Price of token:\n$"@ + price
            + "\nVolume: $"@ + volume + "\n24h Change "@ + pair.price_change.h24@ + "%"@,
{
}

/// A volume that is not readable JSON makes the reply the unreadable-data
/// reply, whatever the price.
pub proof fn law_quote_reply_unreadable(invert: bool, pair: L2, price: Seq<char>)
    requires
        json_member(pair.volume@, "h24"@) is None,
    ensures
        quote_reply_text(invert, pair, price) == "Something went wrong with parsing the data"@,
{
}

/// The reply for a pair that is not inverted is the inverted reply followed
/// by a line with the 24 hour price change.
pub proof fn law_change_line(price: Seq<char>, volume: Seq<char>, change: Seq<char>)
    ensures
        price_reply_text(false, price, volume, change) == price_reply_text(true, price, volume, change)
            + "\n24h Change "@ + change + "%"@,
{
}

} // verus!
