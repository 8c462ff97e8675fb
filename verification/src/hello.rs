//! The lines that greet the user when the server starts.

use colored::{ColoredString, Colorize};
use vstd::prelude::*;

verus! {

/// The address under which other devices of the local network reach the
/// server: the machine's address when it is known, a stand-in when it is not,
/// behind the scheme and before the port number.
pub open spec fn lan_url_text(local_ip: Option<Seq<char>>) -> Seq<char> {
    let host = match local_ip {
        Some(ip) => ip,
        None => "THIS_PC_IP"@,
    };
    "http://"@ + host + ":8054"@
}

/// The five lines of the greeting, given the heading and the two addresses
/// as they are to appear.
pub open spec fn hello_text(heading: Seq<char>, here: Seq<char>, there: Seq<char>) -> Seq<
    Seq<char>,
> {
    seq![
        heading,
        "In your web browser, go to:"@,
        "On this device: "@ + here,
        "On any other device within your local network: "@ + there,
        "Press CTRL+C to shut down the program"@,
    ]
}

/// The text of each line.
pub open spec fn texts(lines: Seq<String>) -> Seq<Seq<char>> {
    lines.map_values(|line: String| line@)
}

/// A text together with the colour and the weight it is to be shown in, as
/// the `colored` crate holds it. Nothing is known of what is inside.
#[verifier::external_type_specification]
#[verifier::external_body]
pub struct ExColoredString(ColoredString);

/// `Colorize::green` on a `&str`: `text`, to be shown in green.
#[verifier::external_body]
fn green(text: &str) -> (painted: ColoredString) {
    text.green()
}

/// `Colorize::bold` on a `&str`: `text`, to be shown in bold.
#[verifier::external_body]
fn bold(text: &str) -> (painted: ColoredString) {
    text.bold()
}

/// `Colorize::bold` on a `ColoredString`: the same text in the same colour,
/// to be shown in bold.
#[verifier::external_body]
fn bolder(painted: ColoredString) -> (bold: ColoredString) {
    painted.bold()
}

/// The `Display` of a `ColoredString`: the text as it is written to a
/// terminal. Whether it carries escape codes depends on the terminal and on
/// the environment of the process, so nothing is said of the result.
#[verifier::external_body]
fn rendered(painted: &ColoredString) -> (text: String) {
    painted.to_string()
}

/// The address under which other devices of the local network reach the
/// server. `local_ip` is the machine's address in that network, if it could
/// be found.
pub fn lan_url(local_ip: Option<&str>) -> (url: String)
    ensures
        url@ == lan_url_text(
            match local_ip {
                Some(ip) => Some(ip@),
                None => None,
            },
        ),
{
    let host: &str = match local_ip {
        Some(ip) => ip,
        None => "THIS_PC_IP",
    };
    let mut url = String::from_str("http://");
    url.append(host);
    url.append(":8054");
    url
}

/// The greeting, from the heading and the two addresses as they are to
/// appear.
pub fn hello_lines(heading: &str, here: &str, there: &str) -> (lines: Vec<String>)
    ensures
        lines@.len() == 5,
        texts(lines@) == hello_text(heading@, here@, there@),
{
    let mut lines: Vec<String> = Vec::new();
    lines.push(String::from_str(heading));
    lines.push(String::from_str("In your web browser, go to:"));
    lines.push(String::from_str("On this device: ").concat(here));
    lines.push(String::from_str("On any other device within your local network: ").concat(there));
    lines.push(String::from_str("Press CTRL+C to shut down the program"));
    assert(texts(lines@) =~= hello_text(heading@, here@, there@));
    lines
}

/// The greeting as it is printed when the server starts, one string for each
/// line: the heading in bold green, and in bold the address of the server on
/// this machine and its address for the rest of the local network, which is
/// built from `local_ip`.
///
/// The lines are those of [`hello_text`], whatever the painting made of the
/// heading and of the two addresses.
pub fn hello_message(local_ip: Option<&str>) -> (lines: Vec<String>)
    ensures
        lines@.len() == 5,
        exists|heading: Seq<char>, here: Seq<char>, there: Seq<char>|
            texts(lines@) == #[trigger] hello_text(heading, here, there),
{
    let url = lan_url(local_ip);
    let heading = rendered(&bolder(green("SERVER IS STARTING")));
    let here = rendered(&bold("http://localhost:8054"));
    let there = rendered(&bold(url.as_str()));
    hello_lines(heading.as_str(), here.as_str(), there.as_str())
}

} // verus!
