//! Actions and the rule-based parser that maps a command phrase to one.
use vstd::prelude::*;
use crate::text::{
    collapse, collapse_whitespace, has_prefix, lower_of, lowercase, occurs_in,
    occurs_in_text, push_char, same_text, starts_with_text, strip_prefix_text, title, title_case,
    trim, trim_text,
};

verus! {

/// A user command recognised by the parser.
#[derive(Debug, Clone, PartialEq, Eq)]
pub enum Action {
    /// Launch an application by name.
    OpenApp { name: String },
    /// Open a URL in the default browser.
    OpenUrl { url: String },
    /// Set the output volume, 0 to 100.
    SetVolume { level: u8 },
    /// Mute the audio output.
    Mute,
    /// Unmute the audio output.
    Unmute,
}

/// The value an `Action` stands for.
pub ghost enum ActionView {
    OpenApp { name: Seq<char> },
    OpenUrl { url: Seq<char> },
    SetVolume { level: u8 },
    Mute,
    Unmute,
}

impl View for Action {
    type V = ActionView;

    open spec fn view(&self) -> ActionView {
        match self {
            Action::OpenApp { name } => ActionView::OpenApp { name: name@ },
            Action::OpenUrl { url } => ActionView::OpenUrl { url: url@ },
            Action::SetVolume { level } => ActionView::SetVolume { level: *level },
            Action::Mute => ActionView::Mute,
            Action::Unmute => ActionView::Unmute,
        }
    }
}

/// Why a phrase was not turned into an action.
#[derive(Debug, Clone, PartialEq, Eq)]
pub enum ParseError {
    /// No rule matched; holds the phrase as it was given.
    UnrecognizedCommand(String),
    /// The volume level is not a number from 0 to 100.
    InvalidVolume(String),
    /// `open` with nothing after it.
    MissingOpenTarget,
    /// A volume phrase with no level.
    MissingVolumeLevel,
}

/// The value a `ParseError` stands for.
pub ghost enum ParseErrorView {
    UnrecognizedCommand(Seq<char>),
    InvalidVolume(Seq<char>),
    MissingOpenTarget,
    MissingVolumeLevel,
}

impl View for ParseError {
    type V = ParseErrorView;

    open spec fn view(&self) -> ParseErrorView {
        match self {
            ParseError::UnrecognizedCommand(s) => ParseErrorView::UnrecognizedCommand(s@),
            ParseError::InvalidVolume(s) => ParseErrorView::InvalidVolume(s@),
            ParseError::MissingOpenTarget => ParseErrorView::MissingOpenTarget,
            ParseError::MissingVolumeLevel => ParseErrorView::MissingVolumeLevel,
        }
    }
}

/// The outcome of a parse, as values.
pub type Outcome = Result<ActionView, ParseErrorView>;

/// The value a parse result stands for.
pub open spec fn outcome_of(r: Result<Action, ParseError>) -> Outcome {
    match r {
        Ok(a) => Ok(a@),
        Err(e) => Err(e@),
    }
}

pub open spec fn is_digit(c: char) -> bool {
    48 <= c as u32 && c as u32 <= 57
}

/// The number written by the decimal digits `d`.
pub open spec fn digits_value(d: Seq<char>) -> nat
    decreases d.len(),
{
    if d.len() == 0 {
        0
    } else {
        digits_value(d.drop_last()) * 10 + (d.last() as u32 - 48) as nat
    }
}

/// What `str::parse::<u8>` accepts: an optional `+`, then one or more decimal
/// digits whose value fits in a `u8`.
pub open spec fn u8_value(s: Seq<char>) -> Option<u8> {
    let d = if s.len() > 0 && s[0] == '+' { s.drop_first() } else { s };
    if d.len() > 0 && (forall|i: int| 0 <= i < d.len() ==> is_digit(#[trigger] d[i]))
        && digits_value(d) <= 255 {
        Some(digits_value(d) as u8)
    } else {
        None
    }
}

/// Relies on `str::parse::<u8>`: an optional `+` and decimal digits, within range.
#[verifier::external_body]
fn parse_u8(s: &str) -> (r: Option<u8>)
    ensures
        r == u8_value(s@),
{
    s.parse::<u8>().ok()
}

pub open spec fn digit_char(d: nat) -> char {
    if d == 0 { '0' } else if d == 1 { '1' } else if d == 2 { '2' } else if d == 3 { '3' }
    else if d == 4 { '4' } else if d == 5 { '5' } else if d == 6 { '6' } else if d == 7 { '7' }
    else if d == 8 { '8' } else { '9' }
}

/// The decimal digits of `n`, without leading zeros.
pub open spec fn decimal(n: nat) -> Seq<char>
    decreases n,
{
    if n < 10 {
        seq![digit_char(n)]
    } else {
        decimal(n / 10).push(digit_char(n % 10))
    }
}

fn digit(d: u8) -> (c: char)
    requires
        d < 10,
    ensures
        c == digit_char(d as nat),
{
    if d == 0 { '0' } else if d == 1 { '1' } else if d == 2 { '2' } else if d == 3 { '3' }
    else if d == 4 { '4' } else if d == 5 { '5' } else if d == 6 { '6' } else if d == 7 { '7' }
    else if d == 8 { '8' } else { '9' }
}

/// Appends the decimal digits of `n` to `s`.
pub fn push_decimal(s: &mut String, n: u8)
    ensures
        final(s)@ == old(s)@ + decimal(n as nat),
{
    proof {
        reveal_with_fuel(decimal, 3);
    }
    let ghost s0 = s@;
    if n >= 100 {
        push_char(s, digit(n / 100));
    }
    if n >= 10 {
        push_char(s, digit((n / 10) % 10));
    }
    push_char(s, digit(n % 10));
    proof {
        if n >= 100 {
            assert(decimal(n as nat) =~= seq![digit_char((n / 100) as nat), digit_char(((n / 10) % 10) as nat), digit_char((n % 10) as nat)]);
        } else if n >= 10 {
            assert(decimal(n as nat) =~= seq![digit_char((n / 10) as nat), digit_char((n % 10) as nat)]);
        }
        assert(s@ =~= s0 + decimal(n as nat));
    }
}

/// What a volume level written as `rest` gives.
pub open spec fn level_rule(rest: Seq<char>) -> Outcome {
    let t = trim(rest);
    if t.len() == 0 {
        Err(ParseErrorView::MissingVolumeLevel)
    } else {
        match u8_value(t) {
            Some(v) => if v <= 100 {
                Ok(ActionView::SetVolume { level: v })
            } else {
                Err(ParseErrorView::InvalidVolume(decimal(v as nat) + " (exceeds 100)"@))
            },
            None => Err(ParseErrorView::InvalidVolume(t)),
        }
    }
}

/// The part of `n` after the prefix `p`.
pub open spec fn after(n: Seq<char>, p: Seq<char>) -> Seq<char> {
    n.subrange(p.len() as int, n.len() as int)
}

/// The volume rule on a normalized phrase: the first of its prefixes that
/// matches decides, and `None` where none matches.
pub open spec fn volume_rule(n: Seq<char>) -> Option<Outcome> {
    if has_prefix(n, "set volume to "@) {
        Some(level_rule(after(n, "set volume to "@)))
    } else if has_prefix(n, "set volume "@) {
        Some(level_rule(after(n, "set volume "@)))
    } else if has_prefix(n, "volume to "@) {
        Some(level_rule(after(n, "volume to "@)))
    } else if has_prefix(n, "volume "@) {
        Some(level_rule(after(n, "volume "@)))
    } else {
        None
    }
}

/// A target that is taken for a URL rather than an application name.
pub open spec fn looks_like_url(t: Seq<char>) -> bool {
    has_prefix(t, "http://"@) || has_prefix(t, "https://"@) || occurs_in(t, "://"@)
        || (t.contains('.') && !t.contains(' '))
}

/// An application name as it is launched: words joined by single spaces, each
/// starting with its upper-case letter.
pub open spec fn app_name(t: Seq<char>) -> Seq<char> {
    title(collapse(t))
}

/// The open rule on a normalized phrase, `None` where it does not start with `open `.
pub open spec fn open_rule(n: Seq<char>) -> Option<Outcome> {
    if has_prefix(n, "open "@) {
        let t = trim(after(n, "open "@));
        if t.len() == 0 {
            Some(Err(ParseErrorView::MissingOpenTarget))
        } else if looks_like_url(t) {
            Some(Ok(ActionView::OpenUrl { url: t }))
        } else {
            Some(Ok(ActionView::OpenApp { name: app_name(t) }))
        }
    } else {
        None
    }
}

/// The rules in their order, on the normalized phrase `n` of the input `input`.
pub open spec fn rules(input: Seq<char>, n: Seq<char>) -> Outcome {
    if n == "mute"@ {
        Ok(ActionView::Mute)
    } else if n == "unmute"@ {
        Ok(ActionView::Unmute)
    } else if volume_rule(n) is Some {
        volume_rule(n)->0
    } else if open_rule(n) is Some {
        open_rule(n)->0
    } else {
        Err(ParseErrorView::UnrecognizedCommand(input))
    }
}

/// The normalized form of a phrase that lower-cases to `lowered`.
pub open spec fn normalized(lowered: Seq<char>) -> Seq<char> {
    collapse(lowered)
}

/// What parsing `input` gives, where `lowered` is its lower-case form.
pub open spec fn parse_spec(input: Seq<char>, lowered: Seq<char>) -> Outcome {
    rules(input, normalized(lowered))
}

/// Lower-cases `input` and joins its words with single spaces.
pub fn normalize_input(input: &str) -> (r: String)
    ensures
        r@ == normalized(lower_of(input@)),
{
    let lowered = lowercase(input);
    collapse_whitespace(lowered.as_str())
}

/// `Mute` on exactly `mute`.
pub fn try_parse_mute(input: &str) -> (r: Option<Action>)
    ensures
        r is Some <==> input@ == "mute"@,
        r matches Some(a) ==> a@ == ActionView::Mute,
{
    if same_text(input, "mute") {
        Some(Action::Mute)
    } else {
        None
    }
}

/// `Unmute` on exactly `unmute`.
pub fn try_parse_unmute(input: &str) -> (r: Option<Action>)
    ensures
        r is Some <==> input@ == "unmute"@,
        r matches Some(a) ==> a@ == ActionView::Unmute,
{
    if same_text(input, "unmute") {
        Some(Action::Unmute)
    } else {
        None
    }
}

fn parse_level(rest: &str) -> (r: Result<Action, ParseError>)
    ensures
        outcome_of(r) == level_rule(rest@),
{
    let level_str = trim_text(rest);
    if level_str.unicode_len() == 0 {
        return Err(ParseError::MissingVolumeLevel);
    }
    match parse_u8(level_str) {
        Some(level) => if level <= 100 {
            Ok(Action::SetVolume { level })
        } else {
            let mut msg = String::new();
            push_decimal(&mut msg, level);
            msg.append(" (exceeds 100)");
            Err(ParseError::InvalidVolume(msg))
        },
        None => Err(ParseError::InvalidVolume(String::from_str(level_str))),
    }
}

/// The volume rule: a level after `set volume to `, `set volume `, `volume to `
/// or `volume `, tried in that order.
pub fn try_parse_volume(input: &str) -> (r: Option<Result<Action, ParseError>>)
    ensures
        r is Some <==> volume_rule(input@) is Some,
        r matches Some(res) ==> volume_rule(input@) == Some(outcome_of(res)),
{
    if let Some(rest) = strip_prefix_text(input, "set volume to ") {
        return Some(parse_level(rest));
    }
    if let Some(rest) = strip_prefix_text(input, "set volume ") {
        return Some(parse_level(rest));
    }
    if let Some(rest) = strip_prefix_text(input, "volume to ") {
        return Some(parse_level(rest));
    }
    if let Some(rest) = strip_prefix_text(input, "volume ") {
        return Some(parse_level(rest));
    }
    None
}

/// Whether an `open` target is taken for a URL.
pub fn is_url(target: &str) -> (r: bool)
    ensures
        r == looks_like_url(target@),
{
    starts_with_text(target, "http://") || starts_with_text(target, "https://")
        || occurs_in_text(target, "://")
        || (contains_char(target, '.') && !contains_char(target, ' '))
}

fn contains_char(s: &str, c: char) -> (r: bool)
    ensures
        r == s@.contains(c),
{
    let n = s.unicode_len();
    let mut i: usize = 0;
    while i < n
        invariant
            n == s@.len(),
            i <= n,
            forall|q: int| 0 <= q < i ==> s@[q] != c,
        decreases n - i,
    {
        if s.get_char(i) == c {
            return true;
        }
        i += 1;
    }
    false
}

/// Joins the words of `name` with single spaces, each with its first letter
/// upper-cased.
pub fn capitalize_app_name(name: &str) -> (r: String)
    ensures
        r@ == app_name(name@),
{
    let words = collapse_whitespace(name);
    title_case(words.as_str())
}

/// The open rule: a URL or an application name after `open `.
pub fn try_parse_open(input: &str) -> (r: Option<Result<Action, ParseError>>)
    ensures
        r is Some <==> open_rule(input@) is Some,
        r matches Some(res) ==> open_rule(input@) == Some(outcome_of(res)),
{
    if let Some(rest) = strip_prefix_text(input, "open ") {
        let target = trim_text(rest);
        if target.unicode_len() == 0 {
            return Some(Err(ParseError::MissingOpenTarget));
        }
        if is_url(target) {
            return Some(Ok(Action::OpenUrl { url: String::from_str(target) }));
        }
        return Some(Ok(Action::OpenApp { name: capitalize_app_name(target) }));
    }
    None
}

/// Parses `input` given its lower-case form `lowered`: the rules are tried in
/// order on the normalized phrase.
pub fn parse_lowered(input: &str, lowered: &str) -> (r: Result<Action, ParseError>)
    ensures
        outcome_of(r) == parse_spec(input@, lowered@),
{
    let normalized = collapse_whitespace(lowered);
    let n = normalized.as_str();
    if let Some(action) = try_parse_mute(n) {
        return Ok(action);
    }
    if let Some(action) = try_parse_unmute(n) {
        return Ok(action);
    }
    if let Some(result) = try_parse_volume(n) {
        return result;
    }
    if let Some(result) = try_parse_open(n) {
        return result;
    }
    Err(ParseError::UnrecognizedCommand(String::from_str(input)))
}

/// Parses a command phrase into an action.
pub fn parse_intent(input: &str) -> (r: Result<Action, ParseError>)
    ensures
        outcome_of(r) == parse_spec(input@, lower_of(input@)),
{
    let lowered = lowercase(input);
    parse_lowered(input, lowered.as_str())
}


/// A phrase that no rule matches is refused, and the refusal holds the phrase
/// exactly as it was given; no other input is refused that way.
pub proof fn unrecognized_keeps_input(input: Seq<char>, lowered: Seq<char>)
    ensures
        ({
            let n = normalized(lowered);
            (n != "mute"@ && n != "unmute"@ && volume_rule(n) is None && open_rule(n) is None)
                <==> parse_spec(input, lowered) == Err::<ActionView, ParseErrorView>(
                ParseErrorView::UnrecognizedCommand(input),
            )
        }),
        parse_spec(input, lowered) matches Err(ParseErrorView::UnrecognizedCommand(s)) ==> s
            == input,
{
    let n = normalized(lowered);
    if volume_rule(n) is Some {
        let t = volume_rule(n)->0;
        assert(!(t matches Err(ParseErrorView::UnrecognizedCommand(_))));
    }
}

/// Every volume level that parsing produces lies between 0 and 100.
pub proof fn parsed_volume_in_range(input: Seq<char>, lowered: Seq<char>)
    ensures
        parse_spec(input, lowered) matches Ok(ActionView::SetVolume { level }) ==> level <= 100,
{
}

/// How an action is shown to the user.
pub open spec fn describe(a: ActionView) -> Seq<char> {
    match a {
        ActionView::OpenApp { name } => "OpenApp(name=\""@ + name + "\")"@,
        ActionView::OpenUrl { url } => "OpenUrl(url=\""@ + url + "\")"@,
        ActionView::SetVolume { level } => "SetVolume(level="@ + decimal(level as nat) + ")"@,
        ActionView::Mute => "Mute"@,
        ActionView::Unmute => "Unmute"@,
    }
}

/// The message shown for a parse error.
pub open spec fn parse_error_message(e: ParseErrorView) -> Seq<char> {
    match e {
        ParseErrorView::UnrecognizedCommand(s) => "Could not understand command: \""@ + s + "\""@,
        ParseErrorView::InvalidVolume(s) => "Invalid volume level: "@ + s + ". Must be 0-100."@,
        ParseErrorView::MissingOpenTarget =>
            "Missing target for 'open' command. Try: 'open safari' or 'open https://example.com'"@,
        ParseErrorView::MissingVolumeLevel => "Missing volume level. Try: 'set volume to 50'"@,
    }
}

impl Action {
    /// The action as it is shown to the user, such as `OpenApp(name="Safari")`.
    pub fn to_string(&self) -> (r: String)
        ensures
            r@ == describe(self@),
    {
        match self {
            Action::OpenApp { name } => {
                let mut s = String::from_str("OpenApp(name=\"");
                s.append(name.as_str());
                s.append("\")");
                s
            },
            Action::OpenUrl { url } => {
                let mut s = String::from_str("OpenUrl(url=\"");
                s.append(url.as_str());
                s.append("\")");
                s
            },
            Action::SetVolume { level } => {
                let mut s = String::from_str("SetVolume(level=");
                push_decimal(&mut s, *level);
                s.append(")");
                s
            },
            Action::Mute => String::from_str("Mute"),
            Action::Unmute => String::from_str("Unmute"),
        }
    }
}

impl ParseError {
    /// The message shown to the user for this error.
    pub fn to_string(&self) -> (r: String)
        ensures
            r@ == parse_error_message(self@),
    {
        match self {
            ParseError::UnrecognizedCommand(s) => {
                let mut m = String::from_str("Could not understand command: \"");
                m.append(s.as_str());
                m.append("\"");
                m
            },
            ParseError::InvalidVolume(s) => {
                let mut m = String::from_str("Invalid volume level: ");
                m.append(s.as_str());
                m.append(". Must be 0-100.");
                m
            },
            ParseError::MissingOpenTarget => String::from_str(
                "Missing target for 'open' command. Try: 'open safari' or 'open https://example.com'",
            ),
            ParseError::MissingVolumeLevel => String::from_str(
                "Missing volume level. Try: 'set volume to 50'",
            ),
        }
    }
}

} // verus!
