use priceinfo::chain::{str_eq_ignore_ascii_case, Chain, InvalidChoice, CHAIN_COUNT};
use priceinfo::command::{register, route_command, CommandRoute, CommandSpec, OptionKind};
use priceinfo::flow::{is_ok_status, pair_url, InfoAction, InfoEvent, InfoFlow, Stage};
use priceinfo::notice::{commands_report, connected_message, error_report};
use priceinfo::pair::{price_reply, quote_reply, Change, L2};
use priceinfo::request::{parse_options, InfoRequest, OptionError, OptionValue};
use priceinfo::text::str_eq;

fn text(s: &str) -> Option<OptionValue> {
    Some(OptionValue::String(s.to_string()))
}

fn pair_with(volume: &str, change_h24: &str) -> L2 {
    L2 {
        chain_id: "ethereum".to_string(),
        dex_id: "uniswap".to_string(),
        url: "https://dexscreener.com/ethereum/0xabc".to_string(),
        pair_address: "0xabc".to_string(),
        price_native: "0.0005".to_string(),
        price_usd: "1.25".to_string(),
        price_change: Change {
            h24: change_h24.to_string(),
            h6: "1".to_string(),
            h1: "0.5".to_string(),
            m5: "0".to_string(),
        },
        liquidity: "{\"usd\":1000}".to_string(),
        volume: volume.to_string(),
        basetoken: "{\"symbol\":\"TKN\"}".to_string(),
    }
}

fn request(chain: &str, address: &str, invert: bool) -> InfoRequest {
    InfoRequest { chain: chain.to_string(), address: address.to_string(), invert }
}

#[test]
fn chain_names_in_order() {
    let names = Chain::choices();
    assert_eq!(names.len() as u64, CHAIN_COUNT);
    assert_eq!(names[0], "ethereum");
    assert_eq!(names[1], "binance_smart_chain");
    assert_eq!(names[7], "aurora");
    assert_eq!(names[17], "xdai");
    assert_eq!(Chain::bsc.name(), "binance_smart_chain");
    assert_eq!(Chain::moonbeam.name(), "moonbeam");
}

#[test]
fn chain_name_roundtrip_for_every_chain() {
    for c in Chain::all() {
        assert_eq!(Chain::from_name(c.name()), Some(c));
        assert_eq!(Chain::from_name(&c.name().to_uppercase()), Some(c));
    }
}

#[test]
fn chain_from_name_ignores_ascii_case_only() {
    assert_eq!(Chain::from_name("EtHeReUm"), Some(Chain::ethereum));
    assert_eq!(Chain::from_name("bsc"), None);
    assert_eq!(Chain::from_name("ethereum "), None);
    assert_eq!(Chain::from_name(""), None);
    assert_eq!("XDAI".parse::<Chain>(), Ok(Chain::xdai));
    assert_eq!("solana".parse::<Chain>(), Err(InvalidChoice));
}

#[test]
fn chain_index_roundtrip() {
    for c in Chain::all() {
        assert_eq!(Chain::from_index(c.index()), Some(c));
        assert_eq!(Chain::choices()[c.index() as usize], c.name());
    }
    assert_eq!(Chain::from_index(0), Some(Chain::ethereum));
    assert_eq!(Chain::from_index(17), Some(Chain::xdai));
    assert_eq!(Chain::from_index(18), None);
    assert_eq!(Chain::from_index(u64::MAX), None);
}

#[test]
fn ignore_case_compare() {
    assert!(str_eq_ignore_ascii_case("Heco", "hECO"));
    assert!(!str_eq_ignore_ascii_case("heco", "hec"));
    assert!(!str_eq_ignore_ascii_case("a_b", "a-b"));
    assert!(str_eq_ignore_ascii_case("", ""));
}

#[test]
fn exact_compare() {
    assert!(str_eq("200 OK", "200 OK"));
    assert!(!str_eq("200 OK", "200 ok"));
    assert!(!str_eq("", "x"));
}

#[test]
fn register_describes_the_command() {
    let mut spec = CommandSpec { name: String::new(), description: String::new(), options: Vec::new() };
    register(&mut spec);
    assert_eq!(spec.name, "info_coin");
    assert_eq!(spec.description, "Get info on a coin by entering their symbol");
    assert_eq!(spec.options.len(), 3);
    let chain = &spec.options[0];
    assert_eq!(chain.name, "chain");
    assert_eq!(chain.description, "Select a chain");
    assert_eq!(chain.kind, OptionKind::String);
    assert!(chain.required);
    assert_eq!(chain.choices.len(), 18);
    assert_eq!(chain.choices[1].name, "binance_smart_chain");
    assert_eq!(chain.choices[1].value, "bsc");
    assert_eq!(chain.choices[7].name, "osmosis");
    assert_eq!(chain.choices[7].value, "aurora");
    assert_eq!(chain.choices[17].name, "xdai");
    let address = &spec.options[1];
    assert_eq!(address.name, "address");
    assert_eq!(address.description, "Enter a symbol, or choose a default one!");
    assert_eq!(address.kind, OptionKind::String);
    assert!(address.required);
    assert!(address.choices.is_empty());
    let invert = &spec.options[2];
    assert_eq!(invert.name, "invert");
    assert_eq!(invert.description, "turn this on if you want to invert the pair");
    assert_eq!(invert.kind, OptionKind::Boolean);
    assert!(invert.required);
}

#[test]
fn register_keeps_earlier_options() {
    let mut spec = CommandSpec { name: String::new(), description: String::new(), options: Vec::new() };
    register(&mut spec);
    register(&mut spec);
    assert_eq!(spec.options.len(), 6);
    assert_eq!(spec.options[0].name, "chain");
    assert_eq!(spec.options[3].name, "chain");
    assert_eq!(spec.options[5].name, "invert");
}

#[test]
fn register_choices_are_distinct() {
    let mut spec = CommandSpec { name: String::new(), description: String::new(), options: Vec::new() };
    register(&mut spec);
    let choices = &spec.options[0].choices;
    for i in 0..choices.len() {
        for j in 0..choices.len() {
            if i != j {
                assert_ne!(choices[i].name, choices[j].name);
                assert_ne!(choices[i].value, choices[j].value);
            }
        }
    }
}

#[test]
fn route_by_command_name() {
    assert!(matches!(route_command("info_coin"), CommandRoute::InfoCoin));
    match route_command("ping") {
        CommandRoute::Reply(t) => assert_eq!(t, "An error :("),
        CommandRoute::InfoCoin => panic!("wrong route"),
    }
    assert!(matches!(route_command("INFO_COIN"), CommandRoute::Reply(_)));
}

#[test]
fn options_read_in_order() {
    let opts = vec![text("polygon"), text("0xdead"), Some(OptionValue::Boolean(true))];
    let req = parse_options(&opts).unwrap();
    assert_eq!(req.chain, "polygon");
    assert_eq!(req.address, "0xdead");
    assert!(req.invert);
}

#[test]
fn option_errors() {
    let bad_chain = vec![Some(OptionValue::Boolean(true)), text("a"), Some(OptionValue::Boolean(false))];
    assert_eq!(parse_options(&bad_chain).unwrap_err(), OptionError::Chain);
    let bad_address = vec![text("ethereum"), Some(OptionValue::Other), Some(OptionValue::Other)];
    assert_eq!(parse_options(&bad_address).unwrap_err(), OptionError::Address);
    let bad_bool = vec![text("ethereum"), text("0x1"), text("yes")];
    assert_eq!(parse_options(&bad_bool).unwrap_err(), OptionError::Boolean);
    assert_eq!(OptionError::Chain.message(), "parsing chain error");
    assert_eq!(OptionError::Address.message(), "parsing address error");
    assert_eq!(OptionError::Boolean.message(), "parsing boolean error");
}

#[test]
fn request_for_picked_chain_uses_display_name() {
    let req = InfoRequest::for_chain(Chain::bsc, "0xabc".to_string(), false);
    assert_eq!(req.chain, "binance_smart_chain");
    let (_, action) = InfoFlow::start(req);
    match action {
        InfoAction::Fetch { url } => assert_eq!(
            url,
            "https://api.dexscreener.com/latest/dex/pairs/binance_smart_chain/0xabc"
        ),
        _ => panic!("expected a fetch"),
    }
}

#[test]
fn url_format() {
    assert_eq!(
        pair_url("ethereum", "0x123"),
        "https://api.dexscreener.com/latest/dex/pairs/ethereum/0x123"
    );
    // A chain text holding a slash makes two requests share one address.
    assert_eq!(pair_url("a", "b/c"), pair_url("a/b", "c"));
}

#[test]
fn status_check() {
    assert!(is_ok_status("200 OK"));
    assert!(!is_ok_status("404 Not Found"));
    assert!(!is_ok_status("200"));
}

#[test]
fn price_reply_inverted_and_plain() {
    assert_eq!(price_reply(true, "2000", "123.5", "4.2"), "Price of token:\n$2000\nVolume: $123.5");
    assert_eq!(
        price_reply(false, "1.25", "123.5", "-4.2"),
        "Price of token:\n$1.25\nVolume: $123.5\n24h Change -4.2%"
    );
    let plain = price_reply(false, "1", "2", "3");
    let inverted = price_reply(true, "1", "2", "3");
    assert_eq!(plain, format!("{}\n24h Change 3%", inverted));
}

#[test]
fn quote_reply_reads_h24_volume() {
    let pair = pair_with("{\"h24\":12345.6,\"h6\":10}", "-3.5");
    assert_eq!(
        quote_reply(false, &pair, "1.25"),
        "Price of token:\n$1.25\nVolume: $12345.6\n24h Change -3.5%"
    );
    assert_eq!(quote_reply(true, &pair, "800"), "Price of token:\n$800\nVolume: $12345.6");
}

#[test]
fn quote_reply_volume_as_json_text() {
    let string_volume = pair_with("{\"h24\":\"77\"}", "1");
    assert_eq!(quote_reply(true, &string_volume, "1"), "Price of token:\n$1\nVolume: $\"77\"");
    let missing = pair_with("{\"h6\":1}", "1");
    assert_eq!(quote_reply(true, &missing, "1"), "Price of token:\n$1\nVolume: $null");
    let not_json = pair_with("{h24", "1");
    assert_eq!(quote_reply(true, &not_json, "1"), "Something went wrong with parsing the data");
}

fn reply_of(action: InfoAction) -> String {
    match action {
        InfoAction::Reply { text } => text,
        _ => panic!("expected a reply"),
    }
}

#[test]
fn flow_unreachable() {
    let (mut flow, _) = InfoFlow::start(request("ethereum", "0x1", false));
    let action = flow.step(InfoEvent::Unreachable);
    assert_eq!(flow.stage, Stage::Finished);
    assert_eq!(reply_of(action), "The dexscreener api can not be reached");
}

#[test]
fn flow_not_found() {
    let (mut flow, _) = InfoFlow::start(request("ethereum", "0x1", false));
    let action = flow.step(InfoEvent::Responded { status: "404 Not Found".to_string() });
    assert_eq!(flow.stage, Stage::Finished);
    assert_eq!(
        reply_of(action),
        "This pair can not be retrieved from dexscreener, make sure you write it down correctly"
    );
}

#[test]
fn flow_unparsable_body() {
    let (mut flow, _) = InfoFlow::start(request("ethereum", "0x1", true));
    let action = flow.step(InfoEvent::Responded { status: "200 OK".to_string() });
    assert_eq!(flow.stage, Stage::AwaitingBody);
    assert!(matches!(action, InfoAction::ReadBody { invert: true }));
    let action = flow.step(InfoEvent::Unparsable);
    assert_eq!(flow.stage, Stage::Finished);
    assert_eq!(reply_of(action), "Something went wrong with parsing the data");
}

#[test]
fn flow_quote() {
    let (mut flow, first) = InfoFlow::start(request("polygon", "0xfeed", false));
    match first {
        InfoAction::Fetch { url } => {
            assert_eq!(url, "https://api.dexscreener.com/latest/dex/pairs/polygon/0xfeed")
        }
        _ => panic!("expected a fetch"),
    }
    let action = flow.step(InfoEvent::Responded { status: "200 OK".to_string() });
    assert!(matches!(action, InfoAction::ReadBody { invert: false }));
    let action = flow.step(InfoEvent::Quote {
        pair: pair_with("{\"h24\":42}", "7.5"),
        price_text: "1.25".to_string(),
    });
    assert_eq!(flow.stage, Stage::Finished);
    assert_eq!(reply_of(action), "Price of token:\n$1.25\nVolume: $42\n24h Change 7.5%");
    assert_eq!(flow.request.chain, "polygon");
}

#[test]
fn notices() {
    assert_eq!(connected_message("PriceBot"), "PriceBot is connected!");
    assert_eq!(commands_report("Ok([])"), "I now have the following guild slash commands: \nOk([])");
    assert_eq!(error_report("Http(..)"), "Error line 57 \n Http(..)");
}

#[test]
fn chain_urls_are_distinct() {
    let chains = Chain::all();
    for c in &chains {
        assert!(!c.name().contains('/'));
    }
    for a in &chains {
        for b in &chains {
            let same = pair_url(a.name(), "0x1") == pair_url(b.name(), "0x1");
            assert_eq!(same, a == b);
        }
    }
    assert_ne!(pair_url("ethereum", "0x1"), pair_url("ethereum", "0x2"));
}
