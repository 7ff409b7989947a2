use vstd::prelude::*;
use crate::text::str_eq;
use crate::chain::Chain;

verus! {

/// The type of value a command option takes.
#[derive(Clone, Copy, Debug, PartialEq, Eq, Structural)]
pub enum OptionKind {
    String,
    Integer,
    Boolean,
}

/// A fixed choice offered for a text option: the name shown to the user and
/// the value sent back when it is picked.
#[derive(Clone, Debug)]
pub struct StringChoice {
    pub name: String,
    pub value: String,
}

/// One option of a slash command.
#[derive(Clone, Debug)]
pub struct CommandOption {
    pub name: String,
    pub description: String,
    pub kind: OptionKind,
    pub required: bool,
    pub choices: Vec<StringChoice>,
}

/// The description of a slash command that is registered with the chat service.
#[derive(Clone, Debug)]
pub struct CommandSpec {
    pub name: String,
    pub description: String,
    pub options: Vec<CommandOption>,
}

/// The (name, value) pairs that the chain option of the command offers.
pub open spec fn chain_choice_pairs() -> Seq<(Seq<char>, Seq<char>)> {
    seq![
        ("ethereum"@, "ethereum"@),
        ("binance_smart_chain"@, "bsc"@),
        ("polygon"@, "polygon"@),
        ("avalanche"@, "avalanche"@),
        ("fantom"@, "fantom"@),
        ("harmony"@, "harmony"@),
        ("cronos"@, "cronos"@),
        ("osmosis"@, "aurora"@),
        ("moonriver"@, "moonriver"@),
        ("moonbeam"@, "moonbeam"@),
        ("metis"@, "metis"@),
        ("arbitrum"@, "arbitrum"@),
        ("optimism"@, "optimism"@),
        ("dogechain"@, "dogechain"@),
        ("heco"@, "heco"@),
        ("astar"@, "astar"@),
        ("evmos"@, "evmos"@),
        ("xdai"@, "xdai"@)
    ]
}

/// The choices hold exactly the given (name, value) pairs, in order.
pub open spec fn choices_are(cs: Seq<StringChoice>, pairs: Seq<(Seq<char>, Seq<char>)>) -> bool {
    &&& cs.len() == pairs.len()
    &&& forall|i: int|
        0 <= i < cs.len() ==> #[trigger] cs[i].name@ == pairs[i].0 && cs[i].value@ == pairs[i].1
}

/// The option has the given name, description, kind, requiredness and choices.
pub open spec fn option_is(
    o: CommandOption,
    name: Seq<char>,
    description: Seq<char>,
    kind: OptionKind,
    required: bool,
    choices: Seq<(Seq<char>, Seq<char>)>,
) -> bool {
    &&& o.name@ == name
    &&& o.description@ == description
    &&& o.kind == kind
    &&& o.required == required
    &&& choices_are(o.choices@, choices)
}

/// The chain option: a required text option with the chain choices.
pub open spec fn is_chain_option(o: CommandOption) -> bool {
    option_is(o, "chain"@, "Select a chain"@, OptionKind::String, true, chain_choice_pairs())
}

/// The address option: a required free text option.
pub open spec fn is_address_option(o: CommandOption) -> bool {
    option_is(
        o,
        "address"@,
        "Enter a symbol, or choose a default one!"@,
        OptionKind::String,
        true,
        Seq::empty(),
    )
}

/// The invert option: a required yes/no option.
pub open spec fn is_invert_option(o: CommandOption) -> bool {
    option_is(
        o,
        "invert"@,
        "turn this on if you want to invert the pair"@,
        OptionKind::Boolean,
        true,
        Seq::empty(),
    )
}

fn string_choice(name: &str, value: &str) -> (r: StringChoice)
    ensures
        r.name@ == name@,
        r.value@ == value@,
{
    StringChoice { name: String::from_str(name), value: String::from_str(value) }
}

fn chain_choices() -> (r: Vec<StringChoice>)
    ensures
        choices_are(r@, chain_choice_pairs()),
{
    let mut choices: Vec<StringChoice> = Vec::new();
    choices.push(string_choice("ethereum", "ethereum"));
    choices.push(string_choice("binance_smart_chain", "bsc"));
    choices.push(string_choice("polygon", "polygon"));
    choices.push(string_choice("avalanche", "avalanche"));
    choices.push(string_choice("fantom", "fantom"));
    choices.push(string_choice("harmony", "harmony"));
    choices.push(string_choice("cronos", "cronos"));
    choices.push(string_choice("osmosis", "aurora"));
    choices.push(string_choice("moonriver", "moonriver"));
    choices.push(string_choice("moonbeam", "moonbeam"));
    choices.push(string_choice("metis", "metis"));
    choices.push(string_choice("arbitrum", "arbitrum"));
    choices.push(string_choice("optimism", "optimism"));
    choices.push(string_choice("dogechain", "dogechain"));
    choices.push(string_choice("heco", "heco"));
    choices.push(string_choice("astar", "astar"));
    choices.push(string_choice("evmos", "evmos"));
    choices.push(string_choice("xdai", "xdai"));
    choices
}

/// Describes the price command on `command`: sets its name and description
/// and appends its three options (chain, address, invert) after the options
/// it already had.
pub fn register(command: &mut CommandSpec)
    ensures
        final(command).name@ == "info_coin"@,
        final(command).description@ == "Get info on a coin by entering their symbol"@,
        final(command).options@.len() == old(command).options@.len() + 3,
        forall|i: int|
            0 <= i < old(command).options@.len() ==> #[trigger] final(command).options@[i]
                == old(command).options@[i],
        is_chain_option(final(command).options@[old(command).options@.len() as int]),
        is_address_option(final(command).options@[old(command).options@.len() + 1int]),
        is_invert_option(final(command).options@[old(command).options@.len() + 2int]),
{
    command.name = String::from_str("info_coin");
    command.description = String::from_str("Get info on a coin by entering their symbol");
    let chain = CommandOption {
        name: String::from_str("chain"),
        description: String::from_str("Select a chain"),
        kind: OptionKind::String,
        required: true,
        choices: chain_choices(),
    };
    command.options.push(chain);
    let address = CommandOption {
        name: String::from_str("address"),
        description: String::from_str("Enter a symbol, or choose a default one!"),
        kind: OptionKind::String,
        required: true,
        choices: Vec::new(),
    };
    command.options.push(address);
    let invert = CommandOption {
        name: String::from_str("invert"),
        description: String::from_str("turn this on if you want to invert the pair"),
        kind: OptionKind::Boolean,
        required: true,
        choices: Vec::new(),
    };
    command.options.push(invert);
}

/// Where an incoming command goes: the price command, or a fixed reply for
/// any command that is not handled.
#[derive(Clone, Debug)]
pub enum CommandRoute {
    InfoCoin,
    Reply(String),
}

/// Routes a command by its name.
pub fn route_command(name: &str) -> (r: CommandRoute)
    ensures
        name@ == "info_coin"@ ==> r is InfoCoin,
        name@ != "info_coin"@ ==> (r matches CommandRoute::Reply(text) && text@ == "An error :("@),
{
    if str_eq(name, "info_coin") {
        CommandRoute::InfoCoin
    } else {
        CommandRoute::Reply(String::from_str("An error :("))
    }
}

/// No two choices of the chain option share a name, and no two share a
/// value: a pick identifies one choice.
pub proof fn law_chain_choices_distinct(i: int, j: int)
    requires
        0 <= i < chain_choice_pairs().len(),
        0 <= j < chain_choice_pairs().len(),
        i != j,
    ensures
        chain_choice_pairs()[i].0 != chain_choice_pairs()[j].0,
        chain_choice_pairs()[i].1 != chain_choice_pairs()[j].1,
{
    reveal_strlit("arbitrum");
    reveal_strlit("astar");
    reveal_strlit("aurora");
    reveal_strlit("avalanche");
    reveal_strlit("binance_smart_chain");
    reveal_strlit("bsc");
    reveal_strlit("cronos");
    reveal_strlit("dogechain");
    reveal_strlit("ethereum");
    reveal_strlit("evmos");
    reveal_strlit("fantom");
    reveal_strlit("harmony");
    reveal_strlit("heco");
    reveal_strlit("metis");
    reveal_strlit("moonbeam");
    reveal_strlit("moonriver");
    reveal_strlit("optimism");
    reveal_strlit("osmosis");
    reveal_strlit("polygon");
    reveal_strlit("xdai");
    let p = chain_choice_pairs();
    if p[i].0 == p[j].0 {
        assert(p[i].0.len() == p[j].0.len() && p[i].0[0] == p[j].0[0]);
    }
    if p[i].1 == p[j].1 {
        assert(p[i].1.len() == p[j].1.len() && p[i].1[0] == p[j].1[0]);
    }
}

/// The chain option offers the chains in the order of the fixed chain list.
/// Each choice's value is the name of the chain at its position, except that
/// the second asks for `bsc`; each choice shows that chain's name, except
/// that the eighth (aurora) is shown as `osmosis`.
pub proof fn law_chain_choices_follow_chains(i: int)
    requires
        0 <= i < chain_choice_pairs().len(),
    ensures
        chain_choice_pairs().len() == 18,
        i != 1 ==> chain_choice_pairs()[i].1 == Chain::spec_at(i as nat).spec_name(),
        i == 1 ==> chain_choice_pairs()[i].1 == "bsc"@ && Chain::spec_at(1) == Chain::bsc,
        i != 7 ==> chain_choice_pairs()[i].0 == Chain::spec_at(i as nat).spec_name(),
        i == 7 ==> chain_choice_pairs()[i].0 == "osmosis"@ && Chain::spec_at(7) == Chain::aurora,
{
}

} // verus!
