//! The rules of the chat commands: which messages draw a reaction, and the
//! texts of the answers.

use vstd::prelude::*;
use vstd::string::*;

verus! {

/// What `text` is in lower case.
pub uninterp spec fn lowercase_of(text: Seq<char>) -> Seq<char>;

/// Whether `c` is white space.
pub uninterp spec fn is_whitespace_char(c: char) -> bool;

/// `str::to_lowercase` returns the lower-case equivalent of the string slice
/// as a new string. What it returns depends on the characters alone.
pub assume_specification[ str::to_lowercase ](s: &str) -> (lower: String)
    ensures
        lower@ == lowercase_of(s@),
;

/// `char::is_whitespace` tells whether the character has the Unicode
/// property White_Space. The answer depends on the character alone.
pub assume_specification[ char::is_whitespace ](c: char) -> (white: bool)
    ensures
        white == is_whitespace_char(c),
;

/// `text` without its white space.
pub open spec fn without_whitespace(text: Seq<char>) -> Seq<char>
    decreases text.len(),
{
    if text.len() == 0 {
        Seq::empty()
    } else if is_whitespace_char(text.last()) {
        without_whitespace(text.drop_last())
    } else {
        without_whitespace(text.drop_last()).push(text.last())
    }
}

/// A message as the keyword rules see it: in lower case and without white
/// space, so that a keyword is found however it is spaced and cased.
pub open spec fn squeezed(content: Seq<char>) -> Seq<char> {
    without_whitespace(lowercase_of(content))
}

/// Whether `needle` stands at index `at` of `text`.
pub open spec fn occurs_at(needle: Seq<char>, text: Seq<char>, at: int) -> bool {
    &&& 0 <= at
    &&& at + needle.len() <= text.len()
    &&& forall|j: int| 0 <= j < needle.len() ==> text[at + j] == needle[j]
}

/// Whether `needle` stands somewhere in `text`.
pub open spec fn occurs_in(needle: Seq<char>, text: Seq<char>) -> bool {
    exists|at: int| occurs_at(needle, text, at)
}

/// A reaction to a message.
#[derive(Debug, Clone, Copy, PartialEq, Eq, Structural)]
pub enum Reaction {
    Fox,
    Cat,
    Lemon,
}

/// The emoji that shows a reaction.
pub open spec fn emoji_of(reaction: Reaction) -> Seq<char> {
    match reaction {
        Reaction::Fox => "\u{1F98A}"@,
        Reaction::Cat => "\u{1F431}"@,
        Reaction::Lemon => "\u{1F34B}"@,
    }
}

/// The emoji that shows a reaction.
pub fn emoji(reaction: Reaction) -> (text: &'static str)
    ensures
        text@ == emoji_of(reaction),
{
    match reaction {
        Reaction::Fox => "\u{1F98A}",
        Reaction::Cat => "\u{1F431}",
        Reaction::Lemon => "\u{1F34B}",
    }
}

/// The reaction, if the message as the rules see it holds the keyword.
pub open spec fn reaction_if(keyword: Seq<char>, text: Seq<char>, reaction: Reaction) -> Seq<
    Reaction,
> {
    if occurs_in(keyword, text) {
        seq![reaction]
    } else {
        Seq::empty()
    }
}

/// The reactions that a message draws, in the order in which they are given:
/// a fox for `fox`, a cat for `cat`, a lemon for `lemon`.
pub open spec fn reactions_of(content: Seq<char>) -> Seq<Reaction> {
    reaction_if("fox"@, squeezed(content), Reaction::Fox) + reaction_if(
        "cat"@,
        squeezed(content),
        Reaction::Cat,
    ) + reaction_if("lemon"@, squeezed(content), Reaction::Lemon)
}

/// The characters of `text` that are not white space.
fn strip_whitespace(text: &str) -> (kept: Vec<char>)
    ensures
        kept@ == without_whitespace(text@),
{
    let mut kept: Vec<char> = Vec::new();
    for c in it: text.chars()
        invariant
            it.seq() == text@,
            kept@ == without_whitespace(text@.take(it.index() as int)),
    {
        assert(text@.take(it.index() + 1).drop_last() =~= text@.take(it.index() as int));
        if !c.is_whitespace() {
            kept.push(c);
        }
    }
    assert(text@.take(text@.len() as int) =~= text@);
    kept
}

/// Whether `needle` stands at index `at` of `text`.
fn matches_at(text: &Vec<char>, needle: &Vec<char>, at: usize) -> (found: bool)
    requires
        at + needle@.len() <= text@.len(),
    ensures
        found == occurs_at(needle@, text@, at as int),
{
    let n: usize = text.len();
    let mut j: usize = 0;
    while j < needle.len()
        invariant
            n == text@.len(),
            at + needle@.len() <= text@.len(),
            j <= needle@.len(),
            forall|k: int| 0 <= k < j ==> text@[at + k] == needle@[k],
        decreases needle@.len() - j,
    {
        if text[at + j] != needle[j] {
            return false;
        }
        j += 1;
    }
    true
}

/// Whether `needle` stands somewhere in `text`.
fn contains(text: &Vec<char>, needle: &Vec<char>) -> (found: bool)
    ensures
        found == occurs_in(needle@, text@),
{
    if needle.len() > text.len() {
        return false;
    }
    let last: usize = text.len() - needle.len();
    let mut at: usize = 0;
    loop
        invariant
            last + needle@.len() == text@.len(),
            at <= last,
            forall|k: int| 0 <= k < at ==> !occurs_at(needle@, text@, k),
        decreases last - at,
    {
        if matches_at(text, needle, at) {
            return true;
        }
        if at == last {
            return false;
        }
        at += 1;
    }
}

/// The characters of a string.
fn characters(text: &str) -> (chars: Vec<char>)
    ensures
        chars@ == text@,
{
    let mut chars: Vec<char> = Vec::new();
    for c in it: text.chars()
        invariant
            it.seq() == text@,
            chars@ == text@.take(it.index() as int),
    {
        chars.push(c);
        assert(chars@ =~= text@.take(it.index() + 1));
    }
    assert(text@.take(text@.len() as int) =~= text@);
    chars
}

/// The reactions that a message draws.
pub fn reactions(content: &str) -> (found: Vec<Reaction>)
    ensures
        found@ == reactions_of(content@),
{
    let lower: String = content.to_lowercase();
    let text: Vec<char> = strip_whitespace(lower.as_str());
    let mut found: Vec<Reaction> = Vec::new();
    if contains(&text, &characters("fox")) {
        found.push(Reaction::Fox);
    }
    if contains(&text, &characters("cat")) {
        found.push(Reaction::Cat);
    }
    if contains(&text, &characters("lemon")) {
        found.push(Reaction::Lemon);
    }
    assert(found@ =~= reactions_of(content@));
    found
}

/// Whether `text` begins with `prefix`.
pub open spec fn begins_with(text: Seq<char>, prefix: Seq<char>) -> bool {
    occurs_at(prefix, text, 0)
}

/// Whether what was asked to be played is looked up by a search. What begins
/// with `http` is taken as an address and played as it is.
pub fn should_search(query: &str) -> (search: bool)
    ensures
        search == !begins_with(query@, "http"@),
{
    let text: Vec<char> = characters(query);
    let prefix: Vec<char> = characters("http");
    if prefix.len() > text.len() {
        true
    } else {
        !matches_at(&text, &prefix, 0)
    }
}

/// The text of an optional string: the string, or `fallback` where there is
/// none.
pub open spec fn text_or(value: Option<String>, fallback: Seq<char>) -> Seq<char> {
    match value {
        Some(text) => text@,
        None => fallback,
    }
}

/// The answer to a request to play something: whether it plays at once or
/// waits in the queue, and where it comes from.
pub open spec fn play_notice_text(queue_empty: bool, source_url: Option<String>) -> Seq<char> {
    (if queue_empty {
        "Playing"@
    } else {
        "Queuing"@
    }) + " audio ("@ + text_or(source_url, "Unable to extract source URL"@) + ")"@
}

/// Renders the answer to a request to play something.
pub fn play_notice(queue_empty: bool, source_url: &Option<String>) -> (text: String)
    ensures
        text@ == play_notice_text(queue_empty, *source_url),
{
    let mut out = String::new();
    if queue_empty {
        out.append("Playing");
    } else {
        out.append("Queuing");
    }
    out.append(" audio (");
    match source_url {
        Some(url) => out.append(url.as_str()),
        None => out.append("Unable to extract source URL"),
    }
    out.append(")");
    assert(out@ =~= play_notice_text(queue_empty, *source_url));
    out
}

/// What is known of the track that is playing.
#[derive(Debug, Clone, PartialEq, Eq)]
pub struct TrackInfo {
    pub title: Option<String>,
    pub track: Option<String>,
    pub artist: Option<String>,
    pub channel: Option<String>,
    pub source_url: Option<String>,
}

/// The description of the track that is playing. What is not known reads
/// `none`.
pub open spec fn now_playing_text(info: TrackInfo) -> Seq<char> {
    "Currently playing audio track:\n"@
        + "    title: "@ + text_or(info.title, "none"@) + "\n"@
        + "    track: "@ + text_or(info.track, "none"@) + "\n"@
        + "    artist: "@ + text_or(info.artist, "none"@) + "\n"@
        + "    YouTube channel: "@ + text_or(info.channel, "none"@) + "\n"@
        + "    URL: <"@ + text_or(info.source_url, "none"@) + ">"@
}

fn append_or_none(out: &mut String, value: &Option<String>)
    ensures
        final(out)@ == old(out)@ + text_or(*value, "none"@),
{
    match value {
        Some(text) => out.append(text.as_str()),
        None => out.append("none"),
    }
}

/// Renders the description of the track that is playing.
pub fn now_playing(info: &TrackInfo) -> (text: String)
    ensures
        text@ == now_playing_text(*info),
{
    let mut out = String::new();
    out.append("Currently playing audio track:\n");
    out.append("    title: ");
    append_or_none(&mut out, &info.title);
    out.append("\n");
    out.append("    track: ");
    append_or_none(&mut out, &info.track);
    out.append("\n");
    out.append("    artist: ");
    append_or_none(&mut out, &info.artist);
    out.append("\n");
    out.append("    YouTube channel: ");
    append_or_none(&mut out, &info.channel);
    out.append("\n");
    out.append("    URL: <");
    append_or_none(&mut out, &info.source_url);
    out.append(">");
    assert(out@ =~= now_playing_text(*info));
    out
}

/// Who is booped: the name as given, but `everyone` for `@everyone`, so that
/// the answer mentions nobody.
pub open spec fn boop_receiver(receiver: Seq<char>) -> Seq<char> {
    if receiver == "@everyone"@ {
        "everyone"@
    } else {
        receiver
    }
}

/// The text of a boop.
pub open spec fn boop_text_of(author: Seq<char>, receiver: Seq<char>) -> Seq<char> {
    "*"@ + author + " boops "@ + boop_receiver(receiver) + "* :3"@
}

/// Renders a boop of `receiver` by `author`.
pub fn boop_text(author: &str, receiver: &str) -> (text: String)
    ensures
        text@ == boop_text_of(author@, receiver@),
{
    let everyone: bool = String::from_str(receiver) == String::from_str("@everyone");
    let mut out = String::new();
    out.append("*");
    out.append(author);
    out.append(" boops ");
    if everyone {
        out.append("everyone");
    } else {
        out.append(receiver);
    }
    out.append("* :3");
    assert(out@ =~= boop_text_of(author@, receiver@));
    out
}

/// The first argument of a command, as the command framework splits what
/// follows the command's name at single spaces; nothing where no argument
/// follows.
pub uninterp spec fn first_argument_of(rest: Seq<char>) -> Option<Seq<char>>;

/// What follows the first argument of a command, as the command framework
/// splits it at single spaces.
pub uninterp spec fn after_first_argument_of(rest: Seq<char>) -> Seq<char>;

/// Splits `rest` with `serenity::framework::standard::Args::new` at single
/// spaces and takes the first argument with `Args::single`.
///
/// The contract claims one thing: whether there is a first argument, and
/// what it is, depends on the characters of `rest` and on nothing else.
#[verifier::external_body]
fn first_argument(rest: &str) -> (first: Option<String>)
    ensures
        text_view(first) == first_argument_of(rest@),
{
    let delimiters = [serenity::framework::standard::Delimiter::Single(' ')];
    let mut args = serenity::framework::standard::Args::new(rest, &delimiters);
    args.single::<String>().ok()
}

/// Splits `rest` with `serenity::framework::standard::Args::new` at single
/// spaces, steps over the first argument with `Args::advance` and takes what
/// is left with `Args::rest`.
///
/// The contract claims one thing: what is left depends on the characters of
/// `rest` and on nothing else.
#[verifier::external_body]
fn after_first_argument(rest: &str) -> (body: String)
    ensures
        body@ == after_first_argument_of(rest@),
{
    let delimiters = [serenity::framework::standard::Delimiter::Single(' ')];
    let mut args = serenity::framework::standard::Args::new(rest, &delimiters);
    args.advance();
    args.rest().to_string()
}

/// The plain value of a text that may be absent.
pub open spec fn text_view(text: Option<String>) -> Option<Seq<char>> {
    match text {
        Some(t) => Some(t@),
        None => None,
    }
}

/// The boop that a command asks for: of its first argument, by `author`;
/// none where the command names nobody.
pub open spec fn boop_of(author: Seq<char>, rest: Seq<char>) -> Option<Seq<char>> {
    match first_argument_of(rest) {
        Some(receiver) => Some(boop_text_of(author, receiver)),
        None => None,
    }
}

/// Renders the boop that a command asks for, from what follows the
/// command's name.
pub fn boop(author: &str, rest: &str) -> (text: Option<String>)
    ensures
        text_view(text) == boop_of(author@, rest@),
{
    match first_argument(rest) {
        Some(receiver) => Some(boop_text(author, receiver.as_str())),
        None => None,
    }
}

/// The text of a direct message that `author` has sent through the bot.
pub open spec fn dm_text_of(author: Seq<char>, body: Seq<char>) -> Seq<char> {
    author + " says "@ + body
}

/// Renders a direct message.
pub fn dm_text(author: &str, body: &str) -> (text: String)
    ensures
        text@ == dm_text_of(author@, body@),
{
    let mut out = String::from_str(author);
    out.append(" says ");
    out.append(body);
    out
}

/// Renders the direct message that a command asks for, from what follows the
/// command's name: the first argument names the receiver, the rest is the
/// message.
pub fn direct_message(author: &str, rest: &str) -> (text: String)
    ensures
        text@ == dm_text_of(author@, after_first_argument_of(rest@)),
{
    let body = after_first_argument(rest);
    dm_text(author, body.as_str())
}

/// The answer after the activity was set.
pub open spec fn activity_notice_text(activity: Seq<char>) -> Seq<char> {
    "Activity set to \"Playing "@ + activity + "\""@
}

/// Renders the answer after the activity was set.
pub fn activity_notice(activity: &str) -> (text: String)
    ensures
        text@ == activity_notice_text(activity@),
{
    let mut out = String::from_str("Activity set to \"Playing ");
    out.append(activity);
    out.append("\"");
    out
}

/// How the program was built.
#[derive(Debug, Clone, PartialEq, Eq)]
pub struct BuildInfo {
    pub version: String,
    pub git_sha: String,
    pub build_date: String,
    pub build_time: String,
    pub profile: String,
    pub rustc_version: String,
    pub host_triple: String,
}

/// The list of the commands that play audio.
pub open spec fn audio_help() -> Seq<char> {
    "audio playback commands:\n"@
        + "    `join`: join the current voice channel\n"@
        + "    `leave`: leave the current voice channel\n"@
        + "    `play`: queue/play the specified URL, or search YouTube and queue/play the first result\n"@
        + "    `skip`: skip the currently playing audio in the queue\n"@
        + "    `stop`: clear the audio queue\n"@
        + "    `np`: view current audio playback info\n\n"@
}

/// The list of the other commands.
pub open spec fn misc_help() -> Seq<char> {
    "misc commands:\n"@
        + "    `help`: list valid commands and some system info\n"@
        + "    `say`: print a message\n"@
        + "    `boop`: boop another user :3\n"@
        + "    `dm`: send a DM to a user\n"@
        + "    `pfp`: send the profile picture of a user (defaults to yourself if no username is mentioned)\n"@
        + "    `invert`: send the profile picture of a user with inverted colors (defaults to yourself if no username is mentioned)"@
}

/// The three lines that say how the program was built.
pub open spec fn build_text(info: BuildInfo) -> Seq<char> {
    "rybot2 "@ + info.version@ + " ("@ + info.git_sha@ + ")\n"@
        + "compiled on "@ + info.build_date@ + " at "@ + info.build_time@ + " ("@ + info.profile@ + ")\n"@
        + "rustc "@ + info.rustc_version@ + " ("@ + info.host_triple@ + ")\n\n"@
}

/// The help: how the program was built, then the two lists of commands.
pub open spec fn help_text_of(info: BuildInfo) -> Seq<char> {
    build_text(info) + audio_help() + misc_help()
}

/// Renders the help.
pub fn help_text(info: &BuildInfo) -> (text: String)
    ensures
        text@ == help_text_of(*info),
{
    let mut out = String::new();
    out.append("rybot2 ");
    out.append(info.version.as_str());
    out.append(" (");
    out.append(info.git_sha.as_str());
    out.append(")\n");
    out.append("compiled on ");
    out.append(info.build_date.as_str());
    out.append(" at ");
    out.append(info.build_time.as_str());
    out.append(" (");
    out.append(info.profile.as_str());
    out.append(")\n");
    out.append("rustc ");
    out.append(info.rustc_version.as_str());
    out.append(" (");
    out.append(info.host_triple.as_str());
    out.append(")\n\n");
    assert(out@ =~= build_text(*info));
    let ghost head = out@;
    out.append("audio playback commands:\n");
    out.append("    `join`: join the current voice channel\n");
    out.append("    `leave`: leave the current voice channel\n");
    out.append("    `play`: queue/play the specified URL, or search YouTube and queue/play the first result\n");
    out.append("    `skip`: skip the currently playing audio in the queue\n");
    out.append("    `stop`: clear the audio queue\n");
    out.append("    `np`: view current audio playback info\n\n");
    assert(out@ =~= head + audio_help());
    let ghost middle = out@;
    out.append("misc commands:\n");
    out.append("    `help`: list valid commands and some system info\n");
    out.append("    `say`: print a message\n");
    out.append("    `boop`: boop another user :3\n");
    out.append("    `dm`: send a DM to a user\n");
    out.append("    `pfp`: send the profile picture of a user (defaults to yourself if no username is mentioned)\n");
    out.append("    `invert`: send the profile picture of a user with inverted colors (defaults to yourself if no username is mentioned)");
    assert(out@ =~= middle + misc_help());
    out
}

} // verus!
