//! Replacement strategies for emoji characters
//!
//! Defines different modes for handling detected emojis and provides
//! comprehensive ASCII mappings for common emoji characters.
use vstd::prelude::*;

verus! {

broadcast use vstd::string::group_string_axioms;

/// Replacement mode for emoji characters
#[derive(Debug, Clone, Copy, PartialEq, Eq, Structural)]
pub enum ReplacementMode {
    /// Smart mode: replace functional emojis with ASCII, remove decorative ones (default)
    Smart,
    /// Remove emoji characters entirely
    Remove,
    /// Replace with ASCII alternatives (all mapped emojis)
    Replace,
    /// Replace with a configurable placeholder
    Placeholder,
}

impl Default for ReplacementMode {
    fn default() -> (m: Self)
        ensures
            m == ReplacementMode::Smart,
    {
        ReplacementMode::Smart
    }
}

/// The text that an optional owned string holds.
pub open spec fn option_text(o: Option<String>) -> Option<Seq<char>> {
    match o {
        Some(s) => Some(s@),
        None => None,
    }
}

/// The text that an optional string slice holds.
pub open spec fn option_str(o: Option<&str>) -> Option<Seq<char>> {
    match o {
        Some(s) => Some(s@),
        None => None,
    }
}

/// Trait for emoji replacement strategies
pub trait EmojiReplacer {
    /// The replacement that this strategy gives to `emoji`; `None` when the emoji is removed.
    spec fn replacement_of(&self, emoji: Seq<char>) -> Option<Seq<char>>;

    /// Replace an emoji character with its alternative representation
    ///
    /// Returns the replacement string, or None if the emoji should be removed
    fn replace(&self, emoji: &str) -> (r: Option<String>)
        ensures
            option_text(r) == self.replacement_of(emoji@),
    ;
}

/// The pairs of a table of replacements, by their text.
pub open spec fn table_view(entries: Seq<(String, String)>) -> Seq<(Seq<char>, Seq<char>)> {
    entries.map_values(|p: (String, String)| (p.0@, p.1@))
}

/// What a table of `(emoji, replacement)` pairs gives to `key`: the replacement of the last
/// pair for `key`, so that a later pair overrides an earlier one, as an insertion into a map
/// does.
pub open spec fn table_lookup(t: Seq<(Seq<char>, Seq<char>)>, key: Seq<char>) -> Option<
    Seq<char>,
>
    decreases t.len(),
{
    if t.len() == 0 {
        None
    } else if t.last().0 == key {
        Some(t.last().1)
    } else {
        table_lookup(t.drop_last(), key)
    }
}

/// The default emoji-to-ASCII table.
pub open spec fn ascii_entries() -> Seq<(Seq<char>, Seq<char>)> {
    Seq::empty()
        // Smileys and emotions - positive
        .push(("😀"@, ":D"@))
        .push(("😁"@, ":D"@))
        .push(("😂"@, ":'D"@))
        .push(("🤣"@, ":'D"@))
        .push(("😃"@, ":D"@))
        .push(("😄"@, ":D"@))
        .push(("😅"@, "^^;"@))
        .push(("😆"@, "XD"@))
        .push(("😊"@, ":)"@))
        .push(("😇"@, "O:)"@))
        .push(("🙂"@, ":)"@))
        .push(("🙃"@, "(:"@))
        .push(("😉"@, ";)"@))
        .push(("😌"@, ":)"@))
        .push(("😍"@, "<3"@))
        .push(("🥰"@, "<3"@))
        .push(("😘"@, ":*"@))
        .push(("😗"@, ":*"@))
        .push(("😙"@, ":*"@))
        .push(("😚"@, ":*"@))
        .push(("😋"@, ":P"@))
        .push(("😛"@, ":P"@))
        .push(("😜"@, ";P"@))
        .push(("😝"@, "XP"@))
        .push(("🤪"@, ":P"@))
        // Smileys and emotions - neutral/thinking
        .push(("🤔"@, ":-?"@))
        .push(("🤨"@, ":/"@))
        .push(("😐"@, ":|"@))
        .push(("😑"@, ":|"@))
        .push(("😶"@, ":-X"@))
        .push(("🙄"@, "-_-"@))
        .push(("😏"@, ":]"@))
        .push(("😒"@, ":/"@))
        .push(("🤐"@, ":-X"@))
        // Smileys and emotions - negative
        .push(("😞"@, ":("@))
        .push(("😔"@, ":("@))
        .push(("😟"@, ":("@))
        .push(("😕"@, ":/"@))
        .push(("🙁"@, ":("@))
        .push(("☹️"@, ":("@))
        .push(("☹"@, ":("@))
        .push(("😣"@, ">_<"@))
        .push(("😖"@, ">_<"@))
        .push(("😫"@, ">_<"@))
        .push(("😩"@, ":(("@))
        .push(("🥺"@, ":'("@))
        .push(("😢"@, ":'("@))
        .push(("😭"@, "T_T"@))
        .push(("😤"@, ">:("@))
        .push(("😠"@, ">:("@))
        .push(("😡"@, ">:("@))
        .push(("🤬"@, "#$%!"@))
        .push(("😱"@, "D:"@))
        .push(("😨"@, "D:"@))
        .push(("😰"@, "D:"@))
        .push(("😥"@, ":'("@))
        // Smileys and emotions - other
        .push(("😴"@, "zzz"@))
        .push(("🤤"@, "*drool*"@))
        .push(("😪"@, "zzz"@))
        .push(("😵"@, "X_X"@))
        .push(("🤯"@, "*mind blown*"@))
        .push(("🤓"@, "8)"@))
        .push(("😎"@, "8)"@))
        .push(("🥳"@, "\\o/"@))
        .push(("😬"@, ":-S"@))
        // Hearts and love
        .push(("❤️"@, "<3"@))
        .push(("❤"@, "<3"@))
        .push(("🧡"@, "<3"@))
        .push(("💛"@, "<3"@))
        .push(("💚"@, "<3"@))
        .push(("💙"@, "<3"@))
        .push(("💜"@, "<3"@))
        .push(("🖤"@, "</3"@))
        .push(("🤍"@, "<3"@))
        .push(("🤎"@, "<3"@))
        .push(("💔"@, "</3"@))
        .push(("💕"@, "<3<3"@))
        .push(("💞"@, "<3<3"@))
        .push(("💓"@, "<3"@))
        .push(("💗"@, "<3"@))
        .push(("💖"@, "<3"@))
        .push(("💘"@, "<3"@))
        .push(("💝"@, "<3"@))
        // Hand gestures
        .push(("👍"@, "[+1]"@))
        .push(("👎"@, "[-1]"@))
        .push(("👌"@, "[OK]"@))
        .push(("✌️"@, "[v]"@))
        .push(("✌"@, "[v]"@))
        .push(("🤞"@, "[fingers crossed]"@))
        .push(("🤟"@, "[love]"@))
        .push(("🤘"@, "[rock]"@))
        .push(("🤙"@, "[call me]"@))
        .push(("👈"@, "[<-]"@))
        .push(("👉"@, "[->]"@))
        .push(("👆"@, "[^]"@))
        .push(("👇"@, "[v]"@))
        .push(("☝️"@, "[^]"@))
        .push(("☝"@, "[^]"@))
        .push(("👋"@, "[wave]"@))
        .push(("🤚"@, "[hand]"@))
        .push(("🖐️"@, "[hand]"@))
        .push(("🖐"@, "[hand]"@))
        .push(("✋"@, "[hand]"@))
        .push(("🖖"@, "[vulcan]"@))
        .push(("👏"@, "[clap]"@))
        .push(("🙌"@, "[\\o/]"@))
        .push(("🤲"@, "[hands]"@))
        .push(("🤝"@, "[handshake]"@))
        .push(("🙏"@, "[pray]"@))
        .push(("✍️"@, "[write]"@))
        .push(("✍"@, "[write]"@))
        .push(("💪"@, "[strong]"@))
        .push(("🦾"@, "[strong]"@))
        // Common symbols and checkmarks
        .push(("✓"@, "[v]"@))
        .push(("✔️"@, "[v]"@))
        .push(("✔"@, "[v]"@))
        .push(("✅"@, "[✓]"@))
        .push(("✗"@, "[X]"@))
        .push(("✘"@, "[X]"@))
        .push(("❌"@, "[X]"@))
        .push(("❎"@, "[X]"@))
        .push(("⭐"@, "[*]"@))
        .push(("🌟"@, "[*]"@))
        .push(("✨"@, "[sparkle]"@))
        .push(("💫"@, "[dizzy]"@))
        .push(("⚡"@, "[!]"@))
        .push(("🔥"@, "[fire]"@))
        .push(("💥"@, "[boom]"@))
        .push(("💯"@, "[100]"@))
        .push(("🎯"@, "[target]"@))
        // Warning and alert symbols
        .push(("⚠️"@, "[!]"@))
        .push(("⚠"@, "[!]"@))
        .push(("🚨"@, "[!!]"@))
        .push(("🚫"@, "[no]"@))
        .push(("⛔"@, "[stop]"@))
        .push(("🛑"@, "[stop]"@))
        .push(("❗"@, "[!]"@))
        .push(("❓"@, "[?]"@))
        .push(("❔"@, "[?]"@))
        .push(("❕"@, "[!]"@))
        .push(("⁉️"@, "[!?]"@))
        .push(("⁉"@, "[!?]"@))
        // Arrows
        .push(("➡️"@, "->"@))
        .push(("➡"@, "->"@))
        .push(("⬅️"@, "<-"@))
        .push(("⬅"@, "<-"@))
        .push(("⬆️"@, "^"@))
        .push(("⬆"@, "^"@))
        .push(("⬇️"@, "v"@))
        .push(("⬇"@, "v"@))
        .push(("↗️"@, "^>"@))
        .push(("↗"@, "^>"@))
        .push(("↘️"@, "v>"@))
        .push(("↘"@, "v>"@))
        .push(("↙️"@, "v<"@))
        .push(("↙"@, "v<"@))
        .push(("↖️"@, "^<"@))
        .push(("↖"@, "^<"@))
        .push(("↔️"@, "<->"@))
        .push(("↔"@, "<->"@))
        .push(("↕️"@, "^v"@))
        .push(("↕"@, "^v"@))
        .push(("🔄"@, "[refresh]"@))
        .push(("🔃"@, "[reload]"@))
        .push(("🔁"@, "[repeat]"@))
        .push(("🔂"@, "[repeat-1]"@))
        // Common objects and tools
        .push(("📝"@, "[memo]"@))
        .push(("📄"@, "[doc]"@))
        .push(("📃"@, "[page]"@))
        .push(("📋"@, "[clipboard]"@))
        .push(("📁"@, "[folder]"@))
        .push(("📂"@, "[folder-open]"@))
        .push(("🗂️"@, "[files]"@))
        .push(("🗂"@, "[files]"@))
        .push(("📌"@, "[pin]"@))
        .push(("📍"@, "[pin]"@))
        .push(("🔖"@, "[bookmark]"@))
        .push(("🏷️"@, "[tag]"@))
        .push(("🏷"@, "[tag]"@))
        .push(("💼"@, "[briefcase]"@))
        .push(("🔧"@, "[wrench]"@))
        .push(("🔨"@, "[hammer]"@))
        .push(("⚙️"@, "[gear]"@))
        .push(("⚙"@, "[gear]"@))
        .push(("🛠️"@, "[tools]"@))
        .push(("🛠"@, "[tools]"@))
        .push(("🔍"@, "[search]"@))
        .push(("🔎"@, "[search]"@))
        .push(("🔑"@, "[key]"@))
        .push(("🗝️"@, "[key]"@))
        .push(("🗝"@, "[key]"@))
        .push(("🔒"@, "[lock]"@))
        .push(("🔓"@, "[unlock]"@))
        .push(("🔐"@, "[secure]"@))
        // Tech and development
        .push(("💻"@, "[computer]"@))
        .push(("⌨️"@, "[keyboard]"@))
        .push(("⌨"@, "[keyboard]"@))
        .push(("🖥️"@, "[desktop]"@))
        .push(("🖥"@, "[desktop]"@))
        .push(("🖱️"@, "[mouse]"@))
        .push(("🖱"@, "[mouse]"@))
        .push(("🖨️"@, "[printer]"@))
        .push(("🖨"@, "[printer]"@))
        .push(("💾"@, "[save]"@))
        .push(("💿"@, "[cd]"@))
        .push(("📀"@, "[dvd]"@))
        .push(("🔌"@, "[plug]"@))
        .push(("🔋"@, "[battery]"@))
        .push(("📱"@, "[phone]"@))
        .push(("📲"@, "[mobile]"@))
        // Common development-related emojis
        .push(("🐛"@, "[bug]"@))
        .push(("🐞"@, "[bug]"@))
        .push(("🚀"@, "[rocket]"@))
        .push(("📦"@, "[package]"@))
        .push(("🎉"@, "[party]"@))
        .push(("🎊"@, "[confetti]"@))
        .push(("🎈"@, "[balloon]"@))
        .push(("🏁"@, "[checkered flag]"@))
        .push(("🚩"@, "[flag]"@))
        .push(("⚓"@, "[anchor]"@))
        .push(("🔗"@, "[link]"@))
        .push(("📊"@, "[chart]"@))
        .push(("📈"@, "[trending up]"@))
        .push(("📉"@, "[trending down]"@))
        .push(("💡"@, "[bulb]"@))
        .push(("🔔"@, "[bell]"@))
        .push(("🔕"@, "[no bell]"@))
        .push(("📢"@, "[loudspeaker]"@))
        .push(("📣"@, "[megaphone]"@))
        .push(("💬"@, "[speech]"@))
        .push(("💭"@, "[thought]"@))
        .push(("🗨️"@, "[speech left]"@))
        .push(("🗨"@, "[speech left]"@))
        .push(("🗯️"@, "[anger]"@))
        .push(("🗯"@, "[anger]"@))
}

/// The table of functional emoji: status indicators, warnings, arrows and common
/// development symbols.
pub open spec fn smart_entries() -> Seq<(Seq<char>, Seq<char>)> {
    Seq::empty()
        // Checkmarks and success indicators
        .push(("✅"@, "[OK]"@))
        .push(("✓"@, "[v]"@))
        .push(("✔"@, "[v]"@))
        .push(("☑"@, "[v]"@))
        .push(("🗹"@, "[v]"@))
        .push(("👍"@, "[+1]"@))
        // X marks and failure indicators
        .push(("❌"@, "[X]"@))
        .push(("✗"@, "[X]"@))
        .push(("✘"@, "[X]"@))
        .push(("☒"@, "[X]"@))
        .push(("👎"@, "[-1]"@))
        // Warning and alert symbols
        .push(("⚠"@, "[!]"@))
        .push(("⚠️"@, "[!]"@))
        .push(("‼"@, "[!!]"@))
        .push(("‼️"@, "[!!]"@))
        .push(("❗"@, "[!]"@))
        .push(("❕"@, "[!]"@))
        .push(("❓"@, "[?]"@))
        .push(("❔"@, "[?]"@))
        .push(("⁉"@, "[!?]"@))
        .push(("⁉️"@, "[!?]"@))
        .push(("🚫"@, "[no]"@))
        .push(("⛔"@, "[stop]"@))
        .push(("🛑"@, "[stop]"@))
        // Arrows
        .push(("➡"@, "->"@))
        .push(("➡️"@, "->"@))
        .push(("⬅"@, "<-"@))
        .push(("⬅️"@, "<-"@))
        .push(("⬆"@, "^"@))
        .push(("⬆️"@, "^"@))
        .push(("⬇"@, "v"@))
        .push(("⬇️"@, "v"@))
        .push(("↔"@, "<->"@))
        .push(("↔️"@, "<->"@))
        .push(("↕"@, "^v"@))
        .push(("↕️"@, "^v"@))
        .push(("🔄"@, "[refresh]"@))
        .push(("🔃"@, "[reload]"@))
        // Common development symbols
        .push(("🐛"@, "[bug]"@))
        .push(("🐞"@, "[bug]"@))
        .push(("🚀"@, "[rocket]"@))
        .push(("💡"@, "[idea]"@))
        .push(("🔥"@, "[fire]"@))
        .push(("💥"@, "[boom]"@))
        .push(("⚡"@, "[zap]"@))
        .push(("⚡️"@, "[zap]"@))
        .push(("📝"@, "[memo]"@))
        .push(("📋"@, "[clipboard]"@))
        .push(("🔧"@, "[wrench]"@))
        .push(("🔨"@, "[hammer]"@))
        .push(("⚙"@, "[gear]"@))
        .push(("⚙️"@, "[gear]"@))
        .push(("🔗"@, "[link]"@))
        .push(("🔒"@, "[lock]"@))
        .push(("🔓"@, "[unlock]"@))
        .push(("🔑"@, "[key]"@))
        .push(("🔍"@, "[search]"@))
        .push(("📦"@, "[package]"@))
        .push(("🏷"@, "[tag]"@))
        .push(("🏷️"@, "[tag]"@))
        .push(("📌"@, "[pin]"@))
        .push(("📍"@, "[pin]"@))
        .push(("🎯"@, "[target]"@))
        .push(("💯"@, "[100]"@))
        .push(("⭐"@, "[*]"@))
        .push(("🌟"@, "[*]"@))
        .push(("✨"@, "[sparkle]"@))
        // Info and communication
        .push(("ℹ"@, "[i]"@))
        .push(("ℹ️"@, "[i]"@))
        .push(("🔔"@, "[bell]"@))
        .push(("🔕"@, "[no bell]"@))
        .push(("📢"@, "[announce]"@))
        .push(("📣"@, "[megaphone]"@))
}

/// The text that replaces an emoji under a placeholder when none is configured.
pub open spec fn default_placeholder_text() -> Seq<char> {
    "[EMOJI]"@
}

/// What the replacer that `create_replacer` builds for `mode` gives to `emoji`.
pub open spec fn mode_replacement(
    mode: ReplacementMode,
    placeholder: Option<Seq<char>>,
    emoji: Seq<char>,
) -> Option<Seq<char>> {
    match mode {
        ReplacementMode::Smart => table_lookup(smart_entries(), emoji),
        ReplacementMode::Remove => None,
        ReplacementMode::Replace => table_lookup(ascii_entries(), emoji),
        ReplacementMode::Placeholder => Some(
            match placeholder {
                Some(p) => p,
                None => default_placeholder_text(),
            },
        ),
    }
}

/// Whether two string slices hold the same text.
fn same_text(a: &str, b: &str) -> (r: bool)
    ensures
        r == (a@ == b@),
{
    broadcast use vstd::utf8::encode_utf8_decode_utf8;

    let x = a.as_bytes();
    let y = b.as_bytes();
    if x.len() != y.len() {
        return false;
    }
    let mut i: usize = 0;
    while i < x.len()
        invariant
            x@ == vstd::utf8::encode_utf8(a@),
            y@ == vstd::utf8::encode_utf8(b@),
            x@.len() == y@.len(),
            i <= x@.len(),
            forall|j: int| 0 <= j < i ==> x@[j] == y@[j],
        decreases x@.len() - i,
    {
        if x[i] != y[i] {
            return false;
        }
        i = i + 1;
    }
    assert(x@ =~= y@);
    assert(vstd::utf8::decode_utf8(vstd::utf8::encode_utf8(a@)) == a@);
    assert(vstd::utf8::decode_utf8(vstd::utf8::encode_utf8(b@)) == b@);
    true
}

/// Looks `emoji` up in a table of pairs.
fn lookup<'a>(map: &'a Vec<(String, String)>, emoji: &str) -> (r: Option<&'a str>)
    ensures
        option_str(r) == table_lookup(table_view(map@), emoji@),
{
    let mut i = map.len();
    proof {
        assert(map@.take(i as int) =~= map@);
    }
    while i > 0
        invariant
            i <= map@.len(),
            table_lookup(table_view(map@), emoji@) == table_lookup(
                table_view(map@.take(i as int)),
                emoji@,
            ),
        decreases i,
    {
        proof {
            assert(table_view(map@.take(i as int)).drop_last() =~= table_view(
                map@.take(i - 1),
            ));
        }
        if same_text(map[i - 1].0.as_str(), emoji) {
            return Some(map[i - 1].1.as_str());
        }
        i = i - 1;
    }
    proof {
        assert(table_view(map@.take(0)) =~= Seq::<(Seq<char>, Seq<char>)>::empty());
    }
    None
}

/// Appends the pair `(emoji, text)` to a table.
fn add_entry(map: &mut Vec<(String, String)>, emoji: &str, text: &str)
    ensures
        table_view(final(map)@) == table_view(old(map)@).push((emoji@, text@)),
{
    map.push((emoji.to_string(), text.to_string()));
    proof {
        assert(table_view(map@) =~= table_view(old(map)@).push((emoji@, text@)));
    }
}

/// Replacer that removes all emoji characters
#[derive(Debug, Default)]
pub struct RemoveReplacer;

impl EmojiReplacer for RemoveReplacer {
    open spec fn replacement_of(&self, emoji: Seq<char>) -> Option<Seq<char>> {
        None
    }

    fn replace(&self, _emoji: &str) -> (r: Option<String>) {
        None
    }
}

/// Replacer that uses ASCII alternatives from a predefined mapping
#[derive(Debug)]
pub struct AsciiReplacer {
    mapping: Vec<(String, String)>,
}

impl Default for AsciiReplacer {
    fn default() -> (r: Self)
        ensures
            r.entries() == ascii_entries(),
    {
        Self::new()
    }
}

impl AsciiReplacer {
    /// The pairs of this replacer's table, in order.
    pub closed spec fn entries(&self) -> Seq<(Seq<char>, Seq<char>)> {
        table_view(self.mapping@)
    }

    /// Creates a new ASCII replacer with the default emoji mapping
    pub fn new() -> (r: Self)
        ensures
            r.entries() == ascii_entries(),
    {
        Self { mapping: Self::build_default_mapping() }
    }

    /// Creates a new ASCII replacer with a custom mapping, given as `(emoji, replacement)`
    /// pairs of which a later one overrides an earlier one for the same emoji.
    pub fn with_mapping(mapping: Vec<(String, String)>) -> (r: Self)
        ensures
            r.entries() == table_view(mapping@),
    {
        Self { mapping }
    }

    /// Builds the default emoji-to-ASCII mapping
    fn build_default_mapping() -> (map: Vec<(String, String)>)
        ensures
            table_view(map@) == ascii_entries(),
    {
        let mut map: Vec<(String, String)> = Vec::new();
        proof {
            assert(table_view(map@) =~= Seq::<(Seq<char>, Seq<char>)>::empty());
        }
        // Smileys and emotions - positive
        add_entry(&mut map, "😀", ":D");
        add_entry(&mut map, "😁", ":D");
        add_entry(&mut map, "😂", ":'D");
        add_entry(&mut map, "🤣", ":'D");
        add_entry(&mut map, "😃", ":D");
        add_entry(&mut map, "😄", ":D");
        add_entry(&mut map, "😅", "^^;");
        add_entry(&mut map, "😆", "XD");
        add_entry(&mut map, "😊", ":)");
        add_entry(&mut map, "😇", "O:)");
        add_entry(&mut map, "🙂", ":)");
        add_entry(&mut map, "🙃", "(:");
        add_entry(&mut map, "😉", ";)");
        add_entry(&mut map, "😌", ":)");
        add_entry(&mut map, "😍", "<3");
        add_entry(&mut map, "🥰", "<3");
        add_entry(&mut map, "😘", ":*");
        add_entry(&mut map, "😗", ":*");
        add_entry(&mut map, "😙", ":*");
        add_entry(&mut map, "😚", ":*");
        add_entry(&mut map, "😋", ":P");
        add_entry(&mut map, "😛", ":P");
        add_entry(&mut map, "😜", ";P");
        add_entry(&mut map, "😝", "XP");
        add_entry(&mut map, "🤪", ":P");
        // Smileys and emotions - neutral/thinking
        add_entry(&mut map, "🤔", ":-?");
        add_entry(&mut map, "🤨", ":/");
        add_entry(&mut map, "😐", ":|");
        add_entry(&mut map, "😑", ":|");
        add_entry(&mut map, "😶", ":-X");
        add_entry(&mut map, "🙄", "-_-");
        add_entry(&mut map, "😏", ":]");
        add_entry(&mut map, "😒", ":/");
        add_entry(&mut map, "🤐", ":-X");
        // Smileys and emotions - negative
        add_entry(&mut map, "😞", ":(");
        add_entry(&mut map, "😔", ":(");
        add_entry(&mut map, "😟", ":(");
        add_entry(&mut map, "😕", ":/");
        add_entry(&mut map, "🙁", ":(");
        add_entry(&mut map, "☹️", ":(");
        add_entry(&mut map, "☹", ":(");
        add_entry(&mut map, "😣", ">_<");
        add_entry(&mut map, "😖", ">_<");
        add_entry(&mut map, "😫", ">_<");
        add_entry(&mut map, "😩", ":((");
        add_entry(&mut map, "🥺", ":'(");
        add_entry(&mut map, "😢", ":'(");
        add_entry(&mut map, "😭", "T_T");
        add_entry(&mut map, "😤", ">:(");
        add_entry(&mut map, "😠", ">:(");
        add_entry(&mut map, "😡", ">:(");
        add_entry(&mut map, "🤬", "#$%!");
        add_entry(&mut map, "😱", "D:");
        add_entry(&mut map, "😨", "D:");
        add_entry(&mut map, "😰", "D:");
        add_entry(&mut map, "😥", ":'(");
        // Smileys and emotions - other
        add_entry(&mut map, "😴", "zzz");
        add_entry(&mut map, "🤤", "*drool*");
        add_entry(&mut map, "😪", "zzz");
        add_entry(&mut map, "😵", "X_X");
        add_entry(&mut map, "🤯", "*mind blown*");
        add_entry(&mut map, "🤓", "8)");
        add_entry(&mut map, "😎", "8)");
        add_entry(&mut map, "🥳", "\\o/");
        add_entry(&mut map, "😬", ":-S");
        // Hearts and love
        add_entry(&mut map, "❤️", "<3");
        add_entry(&mut map, "❤", "<3");
        add_entry(&mut map, "🧡", "<3");
        add_entry(&mut map, "💛", "<3");
        add_entry(&mut map, "💚", "<3");
        add_entry(&mut map, "💙", "<3");
        add_entry(&mut map, "💜", "<3");
        add_entry(&mut map, "🖤", "</3");
        add_entry(&mut map, "🤍", "<3");
        add_entry(&mut map, "🤎", "<3");
        add_entry(&mut map, "💔", "</3");
        add_entry(&mut map, "💕", "<3<3");
        add_entry(&mut map, "💞", "<3<3");
        add_entry(&mut map, "💓", "<3");
        add_entry(&mut map, "💗", "<3");
        add_entry(&mut map, "💖", "<3");
        add_entry(&mut map, "💘", "<3");
        add_entry(&mut map, "💝", "<3");
        // Hand gestures
        add_entry(&mut map, "👍", "[+1]");
        add_entry(&mut map, "👎", "[-1]");
        add_entry(&mut map, "👌", "[OK]");
        add_entry(&mut map, "✌️", "[v]");
        add_entry(&mut map, "✌", "[v]");
        add_entry(&mut map, "🤞", "[fingers crossed]");
        add_entry(&mut map, "🤟", "[love]");
        add_entry(&mut map, "🤘", "[rock]");
        add_entry(&mut map, "🤙", "[call me]");
        add_entry(&mut map, "👈", "[<-]");
        add_entry(&mut map, "👉", "[->]");
        add_entry(&mut map, "👆", "[^]");
        add_entry(&mut map, "👇", "[v]");
        add_entry(&mut map, "☝️", "[^]");
        add_entry(&mut map, "☝", "[^]");
        add_entry(&mut map, "👋", "[wave]");
        add_entry(&mut map, "🤚", "[hand]");
        add_entry(&mut map, "🖐️", "[hand]");
        add_entry(&mut map, "🖐", "[hand]");
        add_entry(&mut map, "✋", "[hand]");
        add_entry(&mut map, "🖖", "[vulcan]");
        add_entry(&mut map, "👏", "[clap]");
        add_entry(&mut map, "🙌", "[\\o/]");
        add_entry(&mut map, "🤲", "[hands]");
        add_entry(&mut map, "🤝", "[handshake]");
        add_entry(&mut map, "🙏", "[pray]");
        add_entry(&mut map, "✍️", "[write]");
        add_entry(&mut map, "✍", "[write]");
        add_entry(&mut map, "💪", "[strong]");
        add_entry(&mut map, "🦾", "[strong]");
        // Common symbols and checkmarks
        add_entry(&mut map, "✓", "[v]");
        add_entry(&mut map, "✔️", "[v]");
        add_entry(&mut map, "✔", "[v]");
        add_entry(&mut map, "✅", "[✓]");
        add_entry(&mut map, "✗", "[X]");
        add_entry(&mut map, "✘", "[X]");
        add_entry(&mut map, "❌", "[X]");
        add_entry(&mut map, "❎", "[X]");
        add_entry(&mut map, "⭐", "[*]");
        add_entry(&mut map, "🌟", "[*]");
        add_entry(&mut map, "✨", "[sparkle]");
        add_entry(&mut map, "💫", "[dizzy]");
        add_entry(&mut map, "⚡", "[!]");
        add_entry(&mut map, "🔥", "[fire]");
        add_entry(&mut map, "💥", "[boom]");
        add_entry(&mut map, "💯", "[100]");
        add_entry(&mut map, "🎯", "[target]");
        // Warning and alert symbols
        add_entry(&mut map, "⚠️", "[!]");
        add_entry(&mut map, "⚠", "[!]");
        add_entry(&mut map, "🚨", "[!!]");
        add_entry(&mut map, "🚫", "[no]");
        add_entry(&mut map, "⛔", "[stop]");
        add_entry(&mut map, "🛑", "[stop]");
        add_entry(&mut map, "❗", "[!]");
        add_entry(&mut map, "❓", "[?]");
        add_entry(&mut map, "❔", "[?]");
        add_entry(&mut map, "❕", "[!]");
        add_entry(&mut map, "⁉️", "[!?]");
        add_entry(&mut map, "⁉", "[!?]");
        // Arrows
        add_entry(&mut map, "➡️", "->");
        add_entry(&mut map, "➡", "->");
        add_entry(&mut map, "⬅️", "<-");
        add_entry(&mut map, "⬅", "<-");
        add_entry(&mut map, "⬆️", "^");
        add_entry(&mut map, "⬆", "^");
        add_entry(&mut map, "⬇️", "v");
        add_entry(&mut map, "⬇", "v");
        add_entry(&mut map, "↗️", "^>");
        add_entry(&mut map, "↗", "^>");
        add_entry(&mut map, "↘️", "v>");
        add_entry(&mut map, "↘", "v>");
        add_entry(&mut map, "↙️", "v<");
        add_entry(&mut map, "↙", "v<");
        add_entry(&mut map, "↖️", "^<");
        add_entry(&mut map, "↖", "^<");
        add_entry(&mut map, "↔️", "<->");
        add_entry(&mut map, "↔", "<->");
        add_entry(&mut map, "↕️", "^v");
        add_entry(&mut map, "↕", "^v");
        add_entry(&mut map, "🔄", "[refresh]");
        add_entry(&mut map, "🔃", "[reload]");
        add_entry(&mut map, "🔁", "[repeat]");
        add_entry(&mut map, "🔂", "[repeat-1]");
        // Common objects and tools
        add_entry(&mut map, "📝", "[memo]");
        add_entry(&mut map, "📄", "[doc]");
        add_entry(&mut map, "📃", "[page]");
        add_entry(&mut map, "📋", "[clipboard]");
        add_entry(&mut map, "📁", "[folder]");
        add_entry(&mut map, "📂", "[folder-open]");
        add_entry(&mut map, "🗂️", "[files]");
        add_entry(&mut map, "🗂", "[files]");
        add_entry(&mut map, "📌", "[pin]");
        add_entry(&mut map, "📍", "[pin]");
        add_entry(&mut map, "🔖", "[bookmark]");
        add_entry(&mut map, "🏷️", "[tag]");
        add_entry(&mut map, "🏷", "[tag]");
        add_entry(&mut map, "💼", "[briefcase]");
        add_entry(&mut map, "🔧", "[wrench]");
        add_entry(&mut map, "🔨", "[hammer]");
        add_entry(&mut map, "⚙️", "[gear]");
        add_entry(&mut map, "⚙", "[gear]");
        add_entry(&mut map, "🛠️", "[tools]");
        add_entry(&mut map, "🛠", "[tools]");
        add_entry(&mut map, "🔍", "[search]");
        add_entry(&mut map, "🔎", "[search]");
        add_entry(&mut map, "🔑", "[key]");
        add_entry(&mut map, "🗝️", "[key]");
        add_entry(&mut map, "🗝", "[key]");
        add_entry(&mut map, "🔒", "[lock]");
        add_entry(&mut map, "🔓", "[unlock]");
        add_entry(&mut map, "🔐", "[secure]");
        // Tech and development
        add_entry(&mut map, "💻", "[computer]");
        add_entry(&mut map, "⌨️", "[keyboard]");
        add_entry(&mut map, "⌨", "[keyboard]");
        add_entry(&mut map, "🖥️", "[desktop]");
        add_entry(&mut map, "🖥", "[desktop]");
        add_entry(&mut map, "🖱️", "[mouse]");
        add_entry(&mut map, "🖱", "[mouse]");
        add_entry(&mut map, "🖨️", "[printer]");
        add_entry(&mut map, "🖨", "[printer]");
        add_entry(&mut map, "💾", "[save]");
        add_entry(&mut map, "💿", "[cd]");
        add_entry(&mut map, "📀", "[dvd]");
        add_entry(&mut map, "🔌", "[plug]");
        add_entry(&mut map, "🔋", "[battery]");
        add_entry(&mut map, "📱", "[phone]");
        add_entry(&mut map, "📲", "[mobile]");
        // Common development-related emojis
        add_entry(&mut map, "🐛", "[bug]");
        add_entry(&mut map, "🐞", "[bug]");
        add_entry(&mut map, "🚀", "[rocket]");
        add_entry(&mut map, "📦", "[package]");
        add_entry(&mut map, "🎉", "[party]");
        add_entry(&mut map, "🎊", "[confetti]");
        add_entry(&mut map, "🎈", "[balloon]");
        add_entry(&mut map, "🏁", "[checkered flag]");
        add_entry(&mut map, "🚩", "[flag]");
        add_entry(&mut map, "⚓", "[anchor]");
        add_entry(&mut map, "🔗", "[link]");
        add_entry(&mut map, "📊", "[chart]");
        add_entry(&mut map, "📈", "[trending up]");
        add_entry(&mut map, "📉", "[trending down]");
        add_entry(&mut map, "💡", "[bulb]");
        add_entry(&mut map, "🔔", "[bell]");
        add_entry(&mut map, "🔕", "[no bell]");
        add_entry(&mut map, "📢", "[loudspeaker]");
        add_entry(&mut map, "📣", "[megaphone]");
        add_entry(&mut map, "💬", "[speech]");
        add_entry(&mut map, "💭", "[thought]");
        add_entry(&mut map, "🗨️", "[speech left]");
        add_entry(&mut map, "🗨", "[speech left]");
        add_entry(&mut map, "🗯️", "[anger]");
        add_entry(&mut map, "🗯", "[anger]");
        map
    }

    /// Get the ASCII replacement for an emoji, if available
    pub fn get_replacement(&self, emoji: &str) -> (r: Option<&str>)
        ensures
            option_str(r) == table_lookup(self.entries(), emoji@),
    {
        lookup(&self.mapping, emoji)
    }
}

impl EmojiReplacer for AsciiReplacer {
    open spec fn replacement_of(&self, emoji: Seq<char>) -> Option<Seq<char>> {
        table_lookup(self.entries(), emoji)
    }

    fn replace(&self, emoji: &str) -> (r: Option<String>) {
        match self.get_replacement(emoji) {
            Some(t) => Some(t.to_string()),
            None => None,
        }
    }
}

/// Replacer that uses a configurable placeholder string
#[derive(Debug, Clone)]
pub struct PlaceholderReplacer {
    placeholder: String,
}

impl Default for PlaceholderReplacer {
    fn default() -> (r: Self)
        ensures
            r.placeholder() == default_placeholder_text(),
    {
        Self::new("[EMOJI]")
    }
}

impl PlaceholderReplacer {
    /// The text that replaces every emoji.
    pub closed spec fn placeholder(&self) -> Seq<char> {
        self.placeholder@
    }

    /// Creates a new placeholder replacer with the given placeholder string
    pub fn new(placeholder: &str) -> (r: Self)
        ensures
            r.placeholder() == placeholder@,
    {
        Self { placeholder: placeholder.to_string() }
    }
}

impl EmojiReplacer for PlaceholderReplacer {
    open spec fn replacement_of(&self, emoji: Seq<char>) -> Option<Seq<char>> {
        Some(self.placeholder())
    }

    fn replace(&self, _emoji: &str) -> (r: Option<String>) {
        Some(self.placeholder.as_str().to_string())
    }
}

/// Replacer that replaces functional emojis with ASCII and removes decorative ones
///
/// "Functional" emojis are those that convey meaning in code contexts:
/// - Checkmarks, X marks, and status indicators
/// - Warnings and alerts
/// - Arrows and directional indicators
/// - Common development symbols (bug, rocket, etc.)
///
/// Decorative emojis (faces, animals, food, etc.) are simply removed.
#[derive(Debug)]
pub struct SmartReplacer {
    mapping: Vec<(String, String)>,
}

impl Default for SmartReplacer {
    fn default() -> (r: Self)
        ensures
            r.entries() == smart_entries(),
    {
        Self::new()
    }
}

impl SmartReplacer {
    /// The pairs of this replacer's table, in order.
    pub closed spec fn entries(&self) -> Seq<(Seq<char>, Seq<char>)> {
        table_view(self.mapping@)
    }

    /// Creates a new smart replacer with functional emoji mappings
    pub fn new() -> (r: Self)
        ensures
            r.entries() == smart_entries(),
    {
        Self { mapping: Self::build_functional_mapping() }
    }

    /// Builds the functional emoji-to-ASCII mapping
    ///
    /// Only includes emojis that have clear functional meaning in code:
    /// - Status indicators (checkmarks, X marks)
    /// - Warnings and alerts
    /// - Arrows and directions
    /// - Common dev symbols
    fn build_functional_mapping() -> (map: Vec<(String, String)>)
        ensures
            table_view(map@) == smart_entries(),
    {
        let mut map: Vec<(String, String)> = Vec::new();
        proof {
            assert(table_view(map@) =~= Seq::<(Seq<char>, Seq<char>)>::empty());
        }
        // Checkmarks and success indicators
        add_entry(&mut map, "✅", "[OK]");
        add_entry(&mut map, "✓", "[v]");
        add_entry(&mut map, "✔", "[v]");
        add_entry(&mut map, "☑", "[v]");
        add_entry(&mut map, "🗹", "[v]");
        add_entry(&mut map, "👍", "[+1]");
        // X marks and failure indicators
        add_entry(&mut map, "❌", "[X]");
        add_entry(&mut map, "✗", "[X]");
        add_entry(&mut map, "✘", "[X]");
        add_entry(&mut map, "☒", "[X]");
        add_entry(&mut map, "👎", "[-1]");
        // Warning and alert symbols
        add_entry(&mut map, "⚠", "[!]");
        add_entry(&mut map, "⚠️", "[!]");
        add_entry(&mut map, "‼", "[!!]");
        add_entry(&mut map, "‼️", "[!!]");
        add_entry(&mut map, "❗", "[!]");
        add_entry(&mut map, "❕", "[!]");
        add_entry(&mut map, "❓", "[?]");
        add_entry(&mut map, "❔", "[?]");
        add_entry(&mut map, "⁉", "[!?]");
        add_entry(&mut map, "⁉️", "[!?]");
        add_entry(&mut map, "🚫", "[no]");
        add_entry(&mut map, "⛔", "[stop]");
        add_entry(&mut map, "🛑", "[stop]");
        // Arrows
        add_entry(&mut map, "➡", "->");
        add_entry(&mut map, "➡️", "->");
        add_entry(&mut map, "⬅", "<-");
        add_entry(&mut map, "⬅️", "<-");
        add_entry(&mut map, "⬆", "^");
        add_entry(&mut map, "⬆️", "^");
        add_entry(&mut map, "⬇", "v");
        add_entry(&mut map, "⬇️", "v");
        add_entry(&mut map, "↔", "<->");
        add_entry(&mut map, "↔️", "<->");
        add_entry(&mut map, "↕", "^v");
        add_entry(&mut map, "↕️", "^v");
        add_entry(&mut map, "🔄", "[refresh]");
        add_entry(&mut map, "🔃", "[reload]");
        // Common development symbols
        add_entry(&mut map, "🐛", "[bug]");
        add_entry(&mut map, "🐞", "[bug]");
        add_entry(&mut map, "🚀", "[rocket]");
        add_entry(&mut map, "💡", "[idea]");
        add_entry(&mut map, "🔥", "[fire]");
        add_entry(&mut map, "💥", "[boom]");
        add_entry(&mut map, "⚡", "[zap]");
        add_entry(&mut map, "⚡️", "[zap]");
        add_entry(&mut map, "📝", "[memo]");
        add_entry(&mut map, "📋", "[clipboard]");
        add_entry(&mut map, "🔧", "[wrench]");
        add_entry(&mut map, "🔨", "[hammer]");
        add_entry(&mut map, "⚙", "[gear]");
        add_entry(&mut map, "⚙️", "[gear]");
        add_entry(&mut map, "🔗", "[link]");
        add_entry(&mut map, "🔒", "[lock]");
        add_entry(&mut map, "🔓", "[unlock]");
        add_entry(&mut map, "🔑", "[key]");
        add_entry(&mut map, "🔍", "[search]");
        add_entry(&mut map, "📦", "[package]");
        add_entry(&mut map, "🏷", "[tag]");
        add_entry(&mut map, "🏷️", "[tag]");
        add_entry(&mut map, "📌", "[pin]");
        add_entry(&mut map, "📍", "[pin]");
        add_entry(&mut map, "🎯", "[target]");
        add_entry(&mut map, "💯", "[100]");
        add_entry(&mut map, "⭐", "[*]");
        add_entry(&mut map, "🌟", "[*]");
        add_entry(&mut map, "✨", "[sparkle]");
        // Info and communication
        add_entry(&mut map, "ℹ", "[i]");
        add_entry(&mut map, "ℹ️", "[i]");
        add_entry(&mut map, "🔔", "[bell]");
        add_entry(&mut map, "🔕", "[no bell]");
        add_entry(&mut map, "📢", "[announce]");
        add_entry(&mut map, "📣", "[megaphone]");
        map
    }

    /// Get the ASCII replacement for a functional emoji, if available
    pub fn get_replacement(&self, emoji: &str) -> (r: Option<&str>)
        ensures
            option_str(r) == table_lookup(self.entries(), emoji@),
    {
        lookup(&self.mapping, emoji)
    }
}

impl EmojiReplacer for SmartReplacer {
    open spec fn replacement_of(&self, emoji: Seq<char>) -> Option<Seq<char>> {
        table_lookup(self.entries(), emoji)
    }

    fn replace(&self, emoji: &str) -> (r: Option<String>) {
        // If it's a functional emoji, replace it; otherwise remove it (return None)
        match self.get_replacement(emoji) {
            Some(t) => Some(t.to_string()),
            None => None,
        }
    }
}

/// The replacer that `create_replacer` selects for a mode.
#[derive(Debug)]
pub enum ModeReplacer {
    /// Replaces functional emoji and removes the others.
    Smart(SmartReplacer),
    /// Removes every emoji.
    Remove(RemoveReplacer),
    /// Replaces the emoji of the ASCII table.
    Replace(AsciiReplacer),
    /// Replaces every emoji with a placeholder.
    Placeholder(PlaceholderReplacer),
}

impl EmojiReplacer for ModeReplacer {
    open spec fn replacement_of(&self, emoji: Seq<char>) -> Option<Seq<char>> {
        match self {
            ModeReplacer::Smart(r) => r.replacement_of(emoji),
            ModeReplacer::Remove(r) => r.replacement_of(emoji),
            ModeReplacer::Replace(r) => r.replacement_of(emoji),
            ModeReplacer::Placeholder(r) => r.replacement_of(emoji),
        }
    }

    fn replace(&self, emoji: &str) -> (r: Option<String>) {
        match self {
            ModeReplacer::Smart(r) => r.replace(emoji),
            ModeReplacer::Remove(r) => r.replace(emoji),
            ModeReplacer::Replace(r) => r.replace(emoji),
            ModeReplacer::Placeholder(r) => r.replace(emoji),
        }
    }
}

/// Creates an emoji replacer based on the replacement mode
pub fn create_replacer(mode: ReplacementMode, placeholder: Option<&str>) -> (r: ModeReplacer)
    ensures
        forall|emoji: Seq<char>|
            #[trigger] r.replacement_of(emoji) == mode_replacement(
                mode,
                option_str(placeholder),
                emoji,
            ),
{
    match mode {
        ReplacementMode::Smart => ModeReplacer::Smart(SmartReplacer::new()),
        ReplacementMode::Remove => ModeReplacer::Remove(RemoveReplacer),
        ReplacementMode::Replace => ModeReplacer::Replace(AsciiReplacer::new()),
        ReplacementMode::Placeholder => {
            let replacer = match placeholder {
                Some(p) => PlaceholderReplacer::new(p),
                None => PlaceholderReplacer::default(),
            };
            ModeReplacer::Placeholder(replacer)
        },
    }
}

/// Remove mode deletes every emoji: no emoji is given a replacement.
pub proof fn lemma_remove_mode_removes_every_emoji(placeholder: Option<Seq<char>>, emoji: Seq<char>)
    ensures
        mode_replacement(ReplacementMode::Remove, placeholder, emoji) is None,
{
}

/// Placeholder mode puts the configured text, or `[EMOJI]` when none is configured, in the
/// place of every emoji.
pub proof fn lemma_placeholder_mode_replaces_every_emoji(
    placeholder: Option<Seq<char>>,
    emoji: Seq<char>,
)
    ensures
        mode_replacement(ReplacementMode::Placeholder, placeholder, emoji) == Some(
            match placeholder {
                Some(p) => p,
                None => "[EMOJI]"@,
            },
        ),
{
}

} // verus!
