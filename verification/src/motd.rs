//! The message of the day.

use crate::text::views;
use rand::seq::IndexedRandom;
use vstd::prelude::*;
use vstd::string::StringExecFns;

verus! {

/// The messages to pick from.
pub open spec fn messages() -> Seq<Seq<char>> {
    seq![
        "First we Ball, then we Atro. We Balatro!"@,
        "Someone call Bean!"@,
        "Surely you'll pull a baron this time."@,
        "Also try the SealSeal mod!"@,
        "You are valid!"@,
        "Nerf Ceremonial Dagger."@,
        "Praise Zech!"@,
        "Only cool people can see this message :3"@,
        ":3"@,
        "Also try Cloverpit!"@,
        "You can add your own MOTD by opening a report at https://github.com/colonthreeing/balatro-tui!"@,
        "Welcome to the balatro tui!"@,
    ]
}

/// Calls `rand::rng` and `IndexedRandom::choose` of rand on `options`: an
/// empty list gives nothing, and from any other list one of its items is
/// picked. Which one is left to chance.
#[verifier::external_body]
fn pick_one(options: &Vec<String>) -> (pick: Option<String>)
    ensures
        (pick is Some) == (options@.len() > 0),
        pick matches Some(s) ==> views(options@).contains(s@),
{
    options.choose(&mut rand::rng()).cloned()
}

/// The messages to pick from.
pub fn potentials() -> (list: Vec<String>)
    ensures
        views(list@) == messages(),
{
    let mut list: Vec<String> = Vec::new();
    list.push(String::from_str("First we Ball, then we Atro. We Balatro!"));
    list.push(String::from_str("Someone call Bean!"));
    list.push(String::from_str("Surely you'll pull a baron this time."));
    list.push(String::from_str("Also try the SealSeal mod!"));
    list.push(String::from_str("You are valid!"));
    list.push(String::from_str("Nerf Ceremonial Dagger."));
    list.push(String::from_str("Praise Zech!"));
    list.push(String::from_str("Only cool people can see this message :3"));
    list.push(String::from_str(":3"));
    list.push(String::from_str("Also try Cloverpit!"));
    list.push(
        String::from_str(
            "You can add your own MOTD by opening a report at https://github.com/colonthreeing/balatro-tui!",
        ),
    );
    list.push(String::from_str("Welcome to the balatro tui!"));
    assert(views(list@) =~= messages());
    list
}

/// The message that a pick stands for: the pick itself, and the last
/// message where nothing was picked.
pub fn message_of(pick: Option<String>) -> (message: String)
    ensures
        message@ == match pick {
            Some(s) => s@,
            None => messages().last(),
        },
{
    match pick {
        Some(s) => s,
        None => String::from_str("Welcome to the balatro tui!"),
    }
}

/// A message of the day: one of `messages`, picked at random.
pub fn motd() -> (message: String)
    ensures
        messages().contains(message@),
{
    let list = potentials();
    let pick = pick_one(&list);
    message_of(pick)
}

} // verus!
