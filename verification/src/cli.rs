//! The command line: what the arguments ask for, the steps of the first
//! setup, and the steps of an update.

use vstd::prelude::*;
use crate::config::Config;
use crate::fileops::prefixed;
use crate::lines::{position_of, position_of_is_first, strs, trim, trimmed};
use crate::sandbox::{opt_str, opt_text};
use crate::sorting::{sort_strings, sorted};
use crate::text::{chars_of, push_str, slice_of, str_eq, string_of};

verus! {

/// Which stored session a run starts from.
#[derive(Debug)]
pub enum SessionChoice {
    /// None: a new conversation.
    Fresh,
    /// The session updated last.
    Latest,
    /// The session of this id.
    Id(String),
}

/// What ends the reading of the arguments before the agent runs.
#[derive(Debug)]
pub enum Stop {
    /// Nothing: the agent runs.
    Run,
    /// Help was asked for.
    Help,
    /// An update was asked for.
    Update,
    /// An argument is not known.
    Unknown(String),
}

/// What the arguments ask for.
#[derive(Debug)]
pub struct CliRequest {
    pub coach: bool,
    /// The provider to use in place of the configured one.
    pub provider: Option<String>,
    pub session: SessionChoice,
    pub stop: Stop,
}

/// A choice of a session as its text.
pub enum SessionChoiceView {
    Fresh,
    Latest,
    Id(Seq<char>),
}

/// What ends the reading of the arguments, as its text.
pub enum StopView {
    Run,
    Help,
    Update,
    Unknown(Seq<char>),
}

/// What the arguments ask for, as its texts.
pub struct CliRequestView {
    pub coach: bool,
    pub provider: Option<Seq<char>>,
    pub session: SessionChoiceView,
    pub stop: StopView,
}

impl View for CliRequest {
    type V = CliRequestView;

    open spec fn view(&self) -> CliRequestView {
        CliRequestView {
            coach: self.coach,
            provider: opt_text(self.provider),
            session: match self.session {
                SessionChoice::Fresh => SessionChoiceView::Fresh,
                SessionChoice::Latest => SessionChoiceView::Latest,
                SessionChoice::Id(s) => SessionChoiceView::Id(s@),
            },
            stop: match self.stop {
                Stop::Run => StopView::Run,
                Stop::Help => StopView::Help,
                Stop::Update => StopView::Update,
                Stop::Unknown(s) => StopView::Unknown(s@),
            },
        }
    }
}

/// What the arguments from position `i` on make of the request read so far.
/// Reading ends at the first argument that asks for help or an update or is
/// not known. An option that takes a value and stands last is passed over.
pub open spec fn parsed_from(args: Seq<Seq<char>>, i: int, so_far: CliRequestView) -> CliRequestView
    decreases args.len() - i,
{
    if i < 0 || i >= args.len() {
        so_far
    } else if args[i] == "-c"@ || args[i] == "--coach"@ {
        parsed_from(args, i + 1, CliRequestView { coach: true, ..so_far })
    } else if args[i] == "--model"@ || args[i] == "-m"@ {
        if i + 1 < args.len() {
            parsed_from(args, i + 2, CliRequestView { provider: Some(args[i + 1]), ..so_far })
        } else {
            parsed_from(args, i + 1, so_far)
        }
    } else if args[i] == "--resume"@ || args[i] == "-r"@ {
        parsed_from(args, i + 1, CliRequestView { session: SessionChoiceView::Latest, ..so_far })
    } else if args[i] == "--session"@ || args[i] == "-s"@ {
        if i + 1 < args.len() {
            parsed_from(
                args,
                i + 2,
                CliRequestView { session: SessionChoiceView::Id(args[i + 1]), ..so_far },
            )
        } else {
            parsed_from(args, i + 1, so_far)
        }
    } else if args[i] == "--help"@ || args[i] == "-h"@ {
        CliRequestView { stop: StopView::Help, ..so_far }
    } else if args[i] == "update"@ {
        CliRequestView { stop: StopView::Update, ..so_far }
    } else {
        CliRequestView { stop: StopView::Unknown(args[i]), ..so_far }
    }
}

/// What the arguments after the name of the program ask for.
pub open spec fn request_of(args: Seq<Seq<char>>) -> CliRequestView {
    parsed_from(
        args,
        1,
        CliRequestView {
            coach: false,
            provider: None,
            session: SessionChoiceView::Fresh,
            stop: StopView::Run,
        },
    )
}

fn is(arg: &String, word: &str) -> (b: bool)
    ensures
        b == (arg@ == word@),
{
    str_eq(arg.as_str(), word)
}

/// Reads the arguments of the command line; the first one is the name of the
/// program.
pub fn parse_args(args: &Vec<String>) -> (out: CliRequest)
    ensures
        out@ == request_of(strs(args@)),
{
    let mut out = CliRequest {
        coach: false,
        provider: None,
        session: SessionChoice::Fresh,
        stop: Stop::Run,
    };
    let mut i: usize = 1;
    while i < args.len()
        invariant
            1 <= i,
            out.stop is Run,
            request_of(strs(args@)) == parsed_from(strs(args@), i as int, out@),
        decreases args.len() - i,
    {
        let a = &args[i];
        assert(strs(args@)[i as int] == a@);
        if is(a, "-c") || is(a, "--coach") {
            out.coach = true;
            i += 1;
        } else if is(a, "--model") || is(a, "-m") {
            if i + 1 < args.len() {
                assert(strs(args@)[i + 1] == args@[i + 1]@);
                out.provider = Some(args[i + 1].clone());
                i += 2;
            } else {
                i += 1;
            }
        } else if is(a, "--resume") || is(a, "-r") {
            out.session = SessionChoice::Latest;
            i += 1;
        } else if is(a, "--session") || is(a, "-s") {
            if i + 1 < args.len() {
                assert(strs(args@)[i + 1] == args@[i + 1]@);
                out.session = SessionChoice::Id(args[i + 1].clone());
                i += 2;
            } else {
                i += 1;
            }
        } else if is(a, "--help") || is(a, "-h") {
            out.stop = Stop::Help;
            return out;
        } else if is(a, "update") {
            out.stop = Stop::Update;
            return out;
        } else {
            out.stop = Stop::Unknown(a.clone());
            return out;
        }
    }
    out
}

/// What is said of an argument that is not known.
pub fn unknown_argument(arg: &str) -> (out: String)
    ensures
        out@ == "Unknown argument: "@ + arg@,
{
    prefixed("Unknown argument: ", arg)
}

/// What `--help` prints.
pub open spec fn usage_text() -> Seq<char> {
    "hal - Chat with LLMs from your terminal\n\nUSAGE:\n    hal [OPTIONS]\n    hal update\n\nOPTIONS:\n    -c, --coach              Run in coach mode\n    -m, --model <NAME>       Model name from config (default: gemini)\n    -r, --resume             Resume the last session\n    -s, --session <ID>       Load a specific session by ID\n    -h, --help               Print help\n\nCOMMANDS:\n    update                   Update hal to the latest version\n"@
}

/// What `--help` prints.
pub fn print_help() -> (out: &'static str)
    ensures
        out@ == usage_text(),
{
    "hal - Chat with LLMs from your terminal\n\nUSAGE:\n    hal [OPTIONS]\n    hal update\n\nOPTIONS:\n    -c, --coach              Run in coach mode\n    -m, --model <NAME>       Model name from config (default: gemini)\n    -r, --resume             Resume the last session\n    -s, --session <ID>       Load a specific session by ID\n    -h, --help               Print help\n\nCOMMANDS:\n    update                   Update hal to the latest version\n"
}

/// Whether the setup has to run before the agent: the provider in use is not
/// configured, or has a key neither in the configuration nor in the
/// environment. `env_key` says whether the environment holds the key.
pub fn needs_setup(config: &Config, env_key: bool) -> (out: bool)
    ensures
        out == if config.names().contains(config.default_provider@) {
            config.providers@[position_of(
                config.names(),
                config.default_provider@,
            )].provider.api_key is None && !env_key
        } else {
            true
        },
{
    proof {
        position_of_is_first(config.names(), config.default_provider@);
    }
    match config.get_provider() {
        Some(p) => p.api_key.is_none() && !env_key,
        None => true,
    }
}

/// The providers in the order in which the setup offers them: the one in use
/// first, the others sorted by name.
pub open spec fn offered(order: Seq<Seq<char>>, names: Seq<Seq<char>>, first: Seq<char>) -> bool {
    &&& order.to_multiset() == names.to_multiset()
    &&& if names.contains(first) {
        order.len() > 0 && order[0] == first && exists|rest: Seq<Seq<char>>|
            #![trigger sorted(rest)]
            sorted(rest) && rest.len() == order.len() && exists|p: int|
                0 <= p < rest.len() && rest[p] == first && order == seq![first] + rest.remove(p)
    } else {
        sorted(order)
    }
}

/// Lists the providers for the setup.
pub fn setup_order(config: &Config) -> (out: Vec<String>)
    ensures
        offered(strs(out@), config.names(), config.default_provider@),
{
    broadcast use vstd::multiset::group_multiset_axioms;

    let mut names: Vec<String> = Vec::new();
    let mut i: usize = 0;
    while i < config.providers.len()
        invariant
            i <= config.providers.len(),
            names.len() == i,
            forall|j: int| 0 <= j < i ==> names@[j]@ == config.providers@[j].name@,
        decreases config.providers.len() - i,
    {
        names.push(config.providers[i].name.clone());
        i += 1;
    }
    assert(strs(names@) =~= config.names());
    sort_strings(&mut names);
    let ghost rest = strs(names@);
    proof {
        rest.to_multiset_ensures();
        config.names().to_multiset_ensures();
    }
    let mut p: usize = 0;
    while p < names.len()
        invariant
            p <= names.len(),
            rest == strs(names@),
            sorted(rest),
            rest.to_multiset() == config.names().to_multiset(),
            forall|j: int| 0 <= j < p ==> rest[j] != config.default_provider@,
        decreases names.len() - p,
    {
        if str_eq(names[p].as_str(), config.default_provider.as_str()) {
            let first = names.remove(p);
            names.insert(0, first);
            proof {
                let order = strs(names@);
                rest.to_multiset_ensures();
                config.names().to_multiset_ensures();
                assert(order =~= seq![first@] + rest.remove(p as int));
                assert(rest[p as int] == first@);
                assert(rest.contains(first@));
                vstd::seq_lib::to_multiset_remove(rest, p as int);
                vstd::seq_lib::to_multiset_insert(rest.remove(p as int), 0, first@);
                assert(rest.remove(p as int).insert(0, first@) =~= order);
                assert(order.to_multiset() =~= rest.to_multiset());
                assert(config.names().to_multiset().count(first@) > 0);
                assert(config.names().contains(first@));
                assert(sorted(rest));
            }
            return names;
        }
        p += 1;
    }
    proof {
        if config.names().contains(config.default_provider@) {
            assert(rest.to_multiset().count(config.default_provider@) > 0);
            assert(rest.contains(config.default_provider@));
            let k = choose|k: int| 0 <= k < rest.len() && rest[k] == config.default_provider@;
            assert(rest[k] != config.default_provider@);
        }
    }
    names
}

/// The number that a text spells in decimal digits, if it is made of digits
/// alone.
pub open spec fn digits_value(s: Seq<char>) -> Option<nat>
    decreases s.len(),
{
    if s.len() == 0 {
        Some(0)
    } else if !('0' <= s.last() <= '9') {
        None
    } else {
        match digits_value(s.drop_last()) {
            Some(v) => Some(v * 10 + (s.last() as u8 - '0' as u8) as nat),
            None => None,
        }
    }
}

/// The number that a line spells: digits, after a plus sign or not, with
/// white space around them or not, that the machine can hold.
pub open spec fn number_of(line: Seq<char>) -> Option<nat> {
    let t = trim(line);
    let digits = if t.len() > 0 && t[0] == '+' {
        t.skip(1)
    } else {
        t
    };
    if digits.len() == 0 {
        None
    } else {
        match digits_value(digits) {
            Some(v) => if v <= usize::MAX {
                Some(v)
            } else {
                None
            },
            None => None,
        }
    }
}

/// The values of the prefixes of a text of digits do not decrease.
proof fn digits_value_grows(s: Seq<char>, k: int)
    requires
        0 <= k <= s.len(),
        digits_value(s) is Some,
    ensures
        digits_value(s.take(k)) is Some,
        digits_value(s.take(k))->0 <= digits_value(s)->0,
    decreases s.len() - k,
{
    if k == s.len() {
        assert(s.take(k) =~= s);
    } else {
        digits_value_grows(s, k + 1);
        assert(s.take(k + 1).drop_last() =~= s.take(k));
    }
}

/// Reads the number that a line spells.
pub fn parse_number(line: &str) -> (out: Option<usize>)
    ensures
        match out {
            Some(v) => number_of(line@) == Some(v as nat),
            None => number_of(line@) is None,
        },
{
    let t = trimmed(&chars_of(line));
    let digits = if t.len() > 0 && t[0] == '+' {
        let d = slice_of(&t, 1, t.len());
        assert(d@ =~= t@.skip(1));
        d
    } else {
        t
    };
    if digits.len() == 0 {
        return None;
    }
    let mut v: usize = 0;
    let mut i: usize = 0;
    assert(digits@.take(0) =~= Seq::empty());
    while i < digits.len()
        invariant
            i <= digits.len(),
            digits@.len() > 0,
            number_of(line@) == (match digits_value(digits@) {
                Some(v) => if v <= usize::MAX {
                    Some(v)
                } else {
                    None
                },
                None => None,
            }),
            digits_value(digits@.take(i as int)) == Some(v as nat),
        decreases digits.len() - i,
    {
        let c = digits[i];
        proof {
            assert(digits@.take(i + 1).drop_last() =~= digits@.take(i as int));
            assert(digits@.take(i + 1).last() == c);
        }
        if !('0' <= c && c <= '9') {
            proof {
                if digits_value(digits@) is Some {
                    digits_value_grows(digits@, i + 1);
                }
            }
            return None;
        }
        let d = (c as u8 - '0' as u8) as usize;
        if v > (usize::MAX - d) / 10 {
            proof {
                if digits_value(digits@) is Some {
                    digits_value_grows(digits@, i + 1);
                }
            }
            return None;
        }
        v = v * 10 + d;
        i += 1;
    }
    assert(digits@.take(i as int) =~= digits@);
    Some(v)
}

/// Which of `n` providers a line chooses: the number that it spells, from 1
/// to `n`, as a position counted from 0.
pub fn setup_choice(line: &str, n: usize) -> (out: Result<usize, String>)
    ensures
        match out {
            Ok(i) => number_of(line@) == Some((i + 1) as nat) && i < n,
            Err(e) => e@ == "Invalid choice"@ && match number_of(line@) {
                Some(v) => v == 0 || v > n,
                None => true,
            },
        },
{
    match parse_number(line) {
        Some(v) => {
            if v == 0 || v > n {
                Err("Invalid choice".to_owned())
            } else {
                Ok(v - 1)
            }
        },
        None => Err("Invalid choice".to_owned()),
    }
}

/// The key that a line of the setup gives: the line without the white space
/// around it. An empty key is refused.
pub fn setup_key(line: &str) -> (out: Result<String, String>)
    ensures
        match out {
            Ok(k) => k@ == trim(line@) && k@.len() > 0,
            Err(e) => e@ == "API key cannot be empty"@ && trim(line@).len() == 0,
        },
{
    let k = trimmed(&chars_of(line));
    if k.len() == 0 {
        Err("API key cannot be empty".to_owned())
    } else {
        Ok(string_of(&k))
    }
}

/// What an update has to do.
#[derive(Debug)]
pub enum UpdatePlan {
    /// Nothing: the version that runs is the latest. The message says so.
    UpToDate(String),
    /// Fetch the program from this address and put it in place of the one
    /// that runs.
    Download { url: String, latest: String },
}

/// A tag without the letters `v` that it begins with.
pub open spec fn version_of(tag: Seq<char>) -> Seq<char>
    decreases tag.len(),
{
    if tag.len() > 0 && tag[0] == 'v' {
        version_of(tag.drop_first())
    } else {
        tag
    }
}

/// Whether releases are built for an operating system.
pub open spec fn known_os(os: Seq<char>) -> bool {
    os == "linux"@ || os == "macos"@ || os == "windows"@
}

/// Whether releases are built for an architecture.
pub open spec fn known_arch(arch: Seq<char>) -> bool {
    arch == "x86_64"@ || arch == "aarch64"@
}

/// Where the latest release for a platform is fetched from.
pub open spec fn asset_url(os: Seq<char>, arch: Seq<char>) -> Seq<char> {
    "https://github.com/fairhill1/hal/releases/latest/download/hal-"@ + os + "-"@ + arch
}

/// What an update has to do, or why there can be none.
pub open spec fn update_plan_of(
    current: Seq<char>,
    tag: Option<Seq<char>>,
    os: Seq<char>,
    arch: Seq<char>,
) -> Result<(bool, Seq<char>, Seq<char>), Seq<char>> {
    match tag {
        None => Err("No tag_name in release"@),
        Some(t) => if version_of(t) == current {
            Ok((false, "Already on the latest version (v"@ + current + ")."@, Seq::empty()))
        } else if !known_os(os) {
            Err("Unsupported OS: "@ + os)
        } else if !known_arch(arch) {
            Err("Unsupported architecture: "@ + arch)
        } else {
            Ok((true, asset_url(os, arch), version_of(t)))
        },
    }
}

/// The view of a plan: whether anything is fetched; the address, or the
/// message; and the latest version.
pub open spec fn update_plan_view(r: Result<UpdatePlan, String>) -> Result<
    (bool, Seq<char>, Seq<char>),
    Seq<char>,
> {
    match r {
        Ok(UpdatePlan::UpToDate(m)) => Ok((false, m@, Seq::empty())),
        Ok(UpdatePlan::Download { url, latest }) => Ok((true, url@, latest@)),
        Err(e) => Err(e@),
    }
}

/// Decides what an update has to do, from the version that runs, the tag of
/// the latest release, and the platform.
pub fn self_update(current_version: &str, tag_name: Option<&str>, os: &str, arch: &str) -> (out:
    Result<UpdatePlan, String>)
    ensures
        update_plan_view(out) == update_plan_of(current_version@, opt_str(tag_name), os@, arch@),
{
    let tag = match tag_name {
        Some(t) => chars_of(t),
        None => {
            return Err("No tag_name in release".to_owned());
        },
    };
    let mut a: usize = 0;
    assert(tag@.skip(0) =~= tag@);
    while a < tag.len() && tag[a] == 'v'
        invariant
            a <= tag.len(),
            version_of(tag@) == version_of(tag@.skip(a as int)),
        decreases tag.len() - a,
    {
        proof {
            assert(tag@.skip(a as int).drop_first() =~= tag@.skip(a + 1));
        }
        a += 1;
    }
    let latest = slice_of(&tag, a, tag.len());
    assert(latest@ =~= tag@.skip(a as int));
    if crate::text::vec_eq(&latest, &chars_of(current_version)) {
        let mut m = chars_of("Already on the latest version (v");
        push_str(&mut m, current_version);
        push_str(&mut m, ").");
        return Ok(UpdatePlan::UpToDate(string_of(&m)));
    }
    if !(str_eq(os, "linux") || str_eq(os, "macos") || str_eq(os, "windows")) {
        return Err(prefixed("Unsupported OS: ", os));
    }
    if !(str_eq(arch, "x86_64") || str_eq(arch, "aarch64")) {
        return Err(prefixed("Unsupported architecture: ", arch));
    }
    let mut url = chars_of("https://github.com/fairhill1/hal/releases/latest/download/hal-");
    push_str(&mut url, os);
    push_str(&mut url, "-");
    push_str(&mut url, arch);
    assert(url@ =~= asset_url(os@, arch@));
    Ok(UpdatePlan::Download { url: string_of(&url), latest: string_of(&latest) })
}

/// What is said once an update is in place; an empty download is refused.
pub fn update_done(current_version: &str, latest: &str, downloaded: usize) -> (out: Result<
    String,
    String,
>)
    ensures
        match out {
            Ok(m) => downloaded > 0 && m@ == "Updated v"@ + current_version@ + " → v"@ + latest@
                + ". Restart hal to use the new version."@,
            Err(e) => downloaded == 0 && e@ == "Downloaded file is empty"@,
        },
{
    if downloaded == 0 {
        return Err("Downloaded file is empty".to_owned());
    }
    let mut m = chars_of("Updated v");
    push_str(&mut m, current_version);
    push_str(&mut m, " → v");
    push_str(&mut m, latest);
    push_str(&mut m, ". Restart hal to use the new version.");
    assert(m@ =~= "Updated v"@ + current_version@ + " → v"@ + latest@
        + ". Restart hal to use the new version."@);
    Ok(string_of(&m))
}

} // verus!
