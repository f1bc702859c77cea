//! The settings that the application keeps between runs, and the text in
//! which they are kept.
//!
//! The text is a list of lines `key = value`. A line that starts with `#`, a
//! blank line and a line without `=` say nothing. Where a key occurs twice the
//! later line stands.

use vstd::prelude::*;
use crate::text::{
    decimal_round_trip,
    is_space,
    lemma_decimal_text_is_plain,
    lemma_position_of,
    lemma_strip_end,
    lemma_strip_start,
    append_i32,
    bool_text,
    decimal_text,
    find_char,
    parse_bool,
    parse_i32,
    part_is,
    position_of,
    spelt_bool,
    spelt_i32,
    strip,
    strip_start,
    stripped,
    Strip,
};

verus! {

/// What the application remembers between runs.
#[derive(Clone, Debug)]
pub struct Settings {
    /// The folder that was scanned last, if any.
    pub last_folder: Option<String>,
    /// Whether a browser is opened when the application starts.
    pub start_browser: bool,
    /// Distance of the panel from the top edge.
    pub top: i32,
    /// Distance of the panel from the left edge.
    pub left: i32,
}

/// The mathematical content of [`Settings`].
pub struct SettingsModel {
    /// The folder that was scanned last, if any.
    pub last_folder: Option<Seq<char>>,
    /// Whether a browser is opened when the application starts.
    pub start_browser: bool,
    /// Distance of the panel from the top edge.
    pub top: i32,
    /// Distance of the panel from the left edge.
    pub left: i32,
}

impl View for Settings {
    type V = SettingsModel;

    open spec fn view(&self) -> SettingsModel {
        SettingsModel {
            last_folder: match self.last_folder {
                Some(folder) => Some(folder@),
                None => None,
            },
            start_browser: self.start_browser,
            top: self.top,
            left: self.left,
        }
    }
}

/// The settings of a first run: no folder, a browser at start, and the panel
/// at 12 from the top and 52 from the left.
pub open spec fn default_settings() -> SettingsModel {
    SettingsModel { last_folder: None, start_browser: true, top: 12, left: 52 }
}

impl Default for Settings {
    /// No folder, a browser at start, and the panel at 12 from the top and 52
    /// from the left.
    fn default() -> (settings: Settings)
        ensures
            settings@ == default_settings(),
    {
        Settings { last_folder: None, start_browser: true, top: 12, left: 52 }
    }
}

/// Where the line that starts at `from` ends: at the next line feed, or at the
/// end of the text.
pub open spec fn line_end(text: Seq<char>, from: int) -> int {
    position_of(text, '\n', from, text.len() as int)
}

/// Whether the line `from..to` says nothing: it starts with `#` or is blank.
pub open spec fn is_skipped(text: Seq<char>, from: int, to: int) -> bool {
    (from < to && text[from] == '#') || strip_start(text, Strip::Spaces, from, to) == to
}

/// The value that the line `from..to` gives to `key`, as a part of the text:
/// what follows the first `=`, without the white space around it. The line
/// gives nothing if it is skipped, has no `=`, or names another key.
pub open spec fn line_value(text: Seq<char>, from: int, to: int, key: Seq<char>) -> Option<
    (int, int),
> {
    let equals = position_of(text, '=', from, to);
    let name = stripped(text, Strip::Spaces, from, equals);
    if !is_skipped(text, from, to) && equals < to && text.subrange(name.0, name.1) == key {
        Some(stripped(text, Strip::Spaces, equals + 1, to))
    } else {
        None
    }
}

/// The value that the lines from `from` on give to `key`: that of the last
/// line that gives one.
pub open spec fn lookup(text: Seq<char>, key: Seq<char>, from: int) -> Option<(int, int)>
    decreases text.len() - from,
{
    if from < 0 || from > text.len() {
        None
    } else {
        let end = line_end(text, from);
        let later = if from <= end < text.len() {
            lookup(text, key, end + 1)
        } else {
            None
        };
        if later is Some {
            later
        } else {
            line_value(text, from, end, key)
        }
    }
}

/// The part of the text that a value stands for.
pub open spec fn value_text(text: Seq<char>, part: (int, int)) -> Seq<char> {
    text.subrange(part.0, part.1)
}

/// The folder that a text of settings names: the value of `last_folder`
/// without the double quotes around it.
pub open spec fn folder_of(text: Seq<char>) -> Option<Seq<char>> {
    match lookup(text, "last_folder"@, 0) {
        Some(part) => Some(value_text(text, stripped(text, Strip::Quotes, part.0, part.1))),
        None => None,
    }
}

/// The truth value that a text of settings gives to `key`, or `fallback`
/// where it gives none or one that is not `true` or `false`.
pub open spec fn flag_of(text: Seq<char>, key: Seq<char>, fallback: bool) -> bool {
    match lookup(text, key, 0) {
        Some(part) => match spelt_bool(value_text(text, part)) {
            Some(value) => value,
            None => fallback,
        },
        None => fallback,
    }
}

/// The number that a text of settings gives to `key`, or `fallback` where it
/// gives none or one that is not a 32-bit integer.
pub open spec fn number_of(text: Seq<char>, key: Seq<char>, fallback: i32) -> i32 {
    match lookup(text, key, 0) {
        Some(part) => match spelt_i32(value_text(text, part)) {
            Some(value) => value,
            None => fallback,
        },
        None => fallback,
    }
}

/// The settings that a text holds; what it does not state keeps its default.
pub open spec fn settings_of(text: Seq<char>) -> SettingsModel {
    SettingsModel {
        last_folder: folder_of(text),
        start_browser: flag_of(text, "start_browser"@, true),
        top: number_of(text, "top"@, 12),
        left: number_of(text, "left"@, 52),
    }
}

/// Whether a text states both `top` and `left`, whatever their values.
pub open spec fn is_complete(text: Seq<char>) -> bool {
    lookup(text, "top"@, 0) is Some && lookup(text, "left"@, 0) is Some
}

/// Reads the value that one line gives to a key.
fn read_line(text: &str, from: usize, to: usize, key: &str) -> (part: Option<(usize, usize)>)
    requires
        from <= to <= text@.len(),
    ensures
        part is Some <==> line_value(text@, from as int, to as int, key@) is Some,
        part matches Some(p) ==> line_value(text@, from as int, to as int, key@) == Some(
            (p.0 as int, p.1 as int),
        ) && p.0 <= p.1 <= text@.len(),
{
    if from < to && text.get_char(from) == '#' {
        return None;
    }
    let content = strip(text, Strip::Spaces, from, to);
    if content.0 == to {
        return None;
    }
    let equals = find_char(text, '=', from, to);
    if equals == to {
        return None;
    }
    let name = strip(text, Strip::Spaces, from, equals);
    if !part_is(text, name.0, name.1, key) {
        return None;
    }
    Some(strip(text, Strip::Spaces, equals + 1, to))
}

/// Finds the value that a text of settings gives to a key, as a part of the
/// text: that of the last line that names the key.
pub fn find_setting(text: &str, key: &str) -> (part: Option<(usize, usize)>)
    ensures
        part is Some <==> lookup(text@, key@, 0) is Some,
        part matches Some(p) ==> lookup(text@, key@, 0) == Some((p.0 as int, p.1 as int)) && p.0
            <= p.1 <= text@.len(),
{
    let len: usize = text.unicode_len();
    let mut found: Option<(usize, usize)> = None;
    let mut from: usize = 0;
    let mut done: bool = false;
    while !done
        invariant
            len == text@.len(),
            from <= len,
            found matches Some(p) ==> p.0 <= p.1 <= len,
            !done ==> lookup(text@, key@, 0) == (match lookup(text@, key@, from as int) {
                Some(later) => Some(later),
                None => match found {
                    Some(p) => Some((p.0 as int, p.1 as int)),
                    None => None,
                },
            }),
            done ==> lookup(text@, key@, 0) == (match found {
                Some(p) => Some((p.0 as int, p.1 as int)),
                None => None::<(int, int)>,
            }),
        decreases len - from + (if done { 0int } else { 1int }),
    {
        let end = find_char(text, '\n', from, len);
        match read_line(text, from, end, key) {
            Some(part) => { found = Some(part); },
            None => {},
        }
        if end < len {
            from = end + 1;
        } else {
            done = true;
        }
    }
    found
}

/// Reads the settings that a text holds.
///
/// Every line `key = value` sets a key; the later of two lines for one key
/// stands. The folder is the value of `last_folder` without the double quotes
/// around it. `start_browser` takes `true` or `false`, `top` and `left` a
/// 32-bit integer in decimal; a value of another shape leaves the default.
/// The flag returned with the settings tells whether the text states both
/// `top` and `left`: a text that does not is due to be written anew.
pub fn parse_settings(text: &str) -> (parsed: (Settings, bool))
    ensures
        parsed.0@ == settings_of(text@),
        parsed.1 == is_complete(text@),
{
    let mut settings = Settings::default();
    match find_setting(text, "last_folder") {
        Some(part) => {
            let bare = strip(text, Strip::Quotes, part.0, part.1);
            settings.last_folder = Some(text.substring_char(bare.0, bare.1).to_owned());
        },
        None => {},
    }
    match find_setting(text, "start_browser") {
        Some(part) => match parse_bool(text, part.0, part.1) {
            Some(value) => { settings.start_browser = value; },
            None => {},
        },
        None => {},
    }
    let top = find_setting(text, "top");
    match top {
        Some(part) => match parse_i32(text, part.0, part.1) {
            Some(value) => { settings.top = value; },
            None => {},
        },
        None => {},
    }
    let left = find_setting(text, "left");
    match left {
        Some(part) => match parse_i32(text, part.0, part.1) {
            Some(value) => { settings.left = value; },
            None => {},
        },
        None => {},
    }
    (settings, top.is_some() && left.is_some())
}

/// The heading of the text in which settings are kept.
pub open spec fn heading_line() -> Seq<char> {
    "# PhotoMap Configuration File\n"@
}

/// The line that gives a value to a key.
pub open spec fn entry_line(key: Seq<char>, value: Seq<char>) -> Seq<char> {
    key + " = "@ + value + "\n"@
}

/// A folder between double quotes.
pub open spec fn quoted(folder: Seq<char>) -> Seq<char> {
    "\""@ + folder + "\""@
}

/// The line that states the folder, if there is one.
pub open spec fn folder_line(folder: Option<Seq<char>>) -> Seq<char> {
    match folder {
        Some(path) => entry_line("last_folder"@, quoted(path)),
        None => Seq::<char>::empty(),
    }
}

/// The text in which settings are kept: a heading, then one line for each
/// setting, the folder in double quotes and only if there is one.
pub open spec fn rendered(settings: SettingsModel) -> Seq<char> {
    heading_line() + folder_line(settings.last_folder) + entry_line(
        "start_browser"@,
        bool_text(settings.start_browser),
    ) + entry_line("top"@, decimal_text(settings.top as int)) + entry_line(
        "left"@,
        decimal_text(settings.left as int),
    )
}

/// Appends the key of a line and the sign that follows it.
fn append_key(out: &mut String, key: &str)
    ensures
        final(out)@ == old(out)@ + key@ + " = "@,
{
    out.append(key);
    out.append(" = ");
}

/// Writes settings as the text in which they are kept.
pub fn render_settings(settings: &Settings) -> (text: String)
    ensures
        text@ == rendered(settings@),
{
    let mut text = String::new();
    text.append("# PhotoMap Configuration File\n");
    match &settings.last_folder {
        Some(folder) => {
            append_key(&mut text, "last_folder");
            text.append("\"");
            text.append(folder.as_str());
            text.append("\"");
            text.append("\n");
        },
        None => {},
    }
    proof {
        assert(text@ =~= heading_line() + folder_line(settings@.last_folder));
    }
    let ghost start = text@;
    append_key(&mut text, "start_browser");
    if settings.start_browser {
        text.append("true");
    } else {
        text.append("false");
    }
    text.append("\n");
    proof {
        assert(text@ =~= start + entry_line("start_browser"@, bool_text(settings.start_browser)));
    }
    let ghost flagged = text@;
    append_key(&mut text, "top");
    append_i32(&mut text, settings.top);
    text.append("\n");
    proof {
        assert(text@ =~= flagged + entry_line("top"@, decimal_text(settings.top as int)));
    }
    let ghost topped = text@;
    append_key(&mut text, "left");
    append_i32(&mut text, settings.left);
    text.append("\n");
    proof {
        assert(text@ =~= topped + entry_line("left"@, decimal_text(settings.left as int)));
    }
    text
}

/// Whether a text can stand as a key: it is not empty, does not start with
/// `#`, and holds no `=`, no line feed and no white space.
pub open spec fn is_plain_key(key: Seq<char>) -> bool {
    &&& key.len() > 0
    &&& key[0] != '#'
    &&& forall|i: int|
        0 <= i < key.len() ==> (#[trigger] key[i]) != '=' && key[i] != '\n' && !is_space(key[i])
}

/// Whether a text can stand as a value: it holds no line feed and neither
/// starts nor ends with white space.
pub open spec fn is_plain_value(value: Seq<char>) -> bool {
    &&& forall|i: int| 0 <= i < value.len() ==> (#[trigger] value[i]) != '\n'
    &&& value.len() > 0 ==> !is_space(value[0]) && !is_space(value.last())
}

/// Whether a folder can be kept in the text: its name holds no line feed and
/// neither starts nor ends with a double quote.
pub open spec fn is_storable_folder(folder: Seq<char>) -> bool {
    &&& forall|i: int| 0 <= i < folder.len() ==> (#[trigger] folder[i]) != '\n'
    &&& folder.len() > 0 ==> folder[0] != '"' && folder.last() != '"'
}

/// What a line `key = value` amid a text gives: it ends at its line feed, sets
/// its own key to its value, and sets no other key.
proof fn lemma_entry(
    pre: Seq<char>,
    key: Seq<char>,
    value: Seq<char>,
    post: Seq<char>,
    other: Seq<char>,
)
    requires
        is_plain_key(key),
        is_plain_value(value),
    ensures
        ({
            let text = pre + entry_line(key, value) + post;
            let from = pre.len() as int;
            let start = from + key.len() + 3;
            let end = start + value.len();
            &&& end < text.len()
            &&& text[end] == '\n'
            &&& line_end(text, from) == end
            &&& text.subrange(start, end) == value
            &&& line_value(text, from, end, other) == (if other == key {
                Some((start, end))
            } else {
                None
            })
        }),
{
    reveal_strlit(" = ");
    reveal_strlit("\n");
    let text = pre + entry_line(key, value) + post;
    let from = pre.len() as int;
    let sign = from + key.len();
    let start = sign + 3;
    let end = start + value.len();
    assert(forall|i: int| 0 <= i < key.len() ==> text[from + i] == key[i]);
    assert(text[sign] == ' ');
    assert(text[sign + 1] == '=');
    assert(text[sign + 2] == ' ');
    assert(forall|i: int| 0 <= i < value.len() ==> text[start + i] == value[i]);
    assert(text[end] == '\n');
    assert(text.subrange(start, end) =~= value);
    assert(text.subrange(from, sign) =~= key);
    assert forall|i: int| from <= i < end implies text[i] != '\n' by {
        if i < sign {
            assert(text[i] == key[i - from]);
        } else if i >= start {
            assert(text[i] == value[i - start]);
        }
    }
    lemma_position_of(text, '\n', from, text.len() as int, end);
    assert(text[from] == key[0]);
    lemma_strip_start(text, Strip::Spaces, from, end, from);
    assert forall|i: int| from <= i < sign + 1 implies text[i] != '=' by {
        if i < sign {
            assert(text[i] == key[i - from]);
        }
    }
    lemma_position_of(text, '=', from, end, sign + 1);
    lemma_strip_start(text, Strip::Spaces, from, sign + 1, from);
    assert(text[sign - 1] == key[key.len() - 1]);
    lemma_strip_end(text, Strip::Spaces, from, sign + 1, sign);
    if value.len() > 0 {
        assert(text[start] == value[0]);
        assert(text[end - 1] == value[value.len() - 1]);
    }
    lemma_strip_start(text, Strip::Spaces, sign + 2, end, start);
    lemma_strip_end(text, Strip::Spaces, start, end, end);
}

/// The heading says nothing: it is skipped whatever key is looked for.
proof fn lemma_heading(post: Seq<char>, key: Seq<char>)
    ensures
        ({
            let text = heading_line() + post;
            let end = heading_line().len() - 1;
            &&& 0 < end < text.len()
            &&& line_end(text, 0) == end
            &&& line_value(text, 0, end, key) is None
        }),
{
    reveal_strlit("# PhotoMap Configuration File\n");
    let text = heading_line() + post;
    let end = heading_line().len() - 1;
    assert(forall|i: int| 0 <= i <= end ==> text[i] == heading_line()[i]);
    lemma_position_of(text, '\n', 0, text.len() as int, end);
}

/// The four keys are keys, and no two of them are the same.
proof fn lemma_keys()
    ensures
        is_plain_key("last_folder"@),
        is_plain_key("start_browser"@),
        is_plain_key("top"@),
        is_plain_key("left"@),
        "last_folder"@.len() == 11,
        "start_browser"@.len() == 13,
        "top"@.len() == 3,
        "left"@.len() == 4,
{
    reveal_strlit("last_folder");
    reveal_strlit("start_browser");
    reveal_strlit("top");
    reveal_strlit("left");
}

/// The text of a truth value spells that value.
proof fn lemma_flag_text(value: bool)
    ensures
        spelt_bool(bool_text(value)) == Some(value),
{
    reveal_strlit("true");
    reveal_strlit("false");
    assert("true"@.len() != "false"@.len());
}

/// Whether a lookup found what was expected: a part of the text that reads
/// as the expected value, or nothing where nothing was expected.
spec fn agrees(text: Seq<char>, found: Option<(int, int)>, expected: Option<Seq<char>>) -> bool {
    match (found, expected) {
        (Some(part), Some(value)) => 0 <= part.0 <= part.1 <= text.len() && value_text(text, part)
            == value,
        (None, None) => true,
        _ => false,
    }
}

/// The lines of a rendering from that of `left` on.
spec fn lines_from_left(settings: SettingsModel) -> Seq<char> {
    entry_line("left"@, decimal_text(settings.left as int))
}

/// The lines of a rendering from that of `top` on.
spec fn lines_from_top(settings: SettingsModel) -> Seq<char> {
    entry_line("top"@, decimal_text(settings.top as int)) + lines_from_left(settings)
}

/// The lines of a rendering from that of `start_browser` on.
spec fn lines_from_flag(settings: SettingsModel) -> Seq<char> {
    entry_line("start_browser"@, bool_text(settings.start_browser)) + lines_from_top(settings)
}

/// The lines of a rendering after the heading.
spec fn lines_from_folder(settings: SettingsModel) -> Seq<char> {
    folder_line(settings.last_folder) + lines_from_flag(settings)
}

/// What the lines from that of `left` on give to a key.
spec fn given_from_left(settings: SettingsModel, key: Seq<char>) -> Option<Seq<char>> {
    if key == "left"@ {
        Some(decimal_text(settings.left as int))
    } else {
        None
    }
}

/// What the lines from that of `top` on give to a key.
spec fn given_from_top(settings: SettingsModel, key: Seq<char>) -> Option<Seq<char>> {
    if key == "top"@ {
        Some(decimal_text(settings.top as int))
    } else {
        given_from_left(settings, key)
    }
}

/// What the lines from that of `start_browser` on give to a key.
spec fn given_from_flag(settings: SettingsModel, key: Seq<char>) -> Option<Seq<char>> {
    if key == "start_browser"@ {
        Some(bool_text(settings.start_browser))
    } else {
        given_from_top(settings, key)
    }
}

/// What the lines of a rendering give to a key.
spec fn given(settings: SettingsModel, key: Seq<char>) -> Option<Seq<char>> {
    match settings.last_folder {
        Some(folder) => if key == "last_folder"@ {
            Some(quoted(folder))
        } else {
            given_from_flag(settings, key)
        },
        None => given_from_flag(settings, key),
    }
}

/// A line `key = value` before further lines gives its value to its key,
/// unless a later line gives one, and leaves the other keys to the later
/// lines.
proof fn lemma_line(
    pre: Seq<char>,
    key: Seq<char>,
    value: Seq<char>,
    post: Seq<char>,
    other: Seq<char>,
    later: Option<Seq<char>>,
)
    requires
        is_plain_key(key),
        is_plain_value(value),
        agrees(
            pre + entry_line(key, value) + post,
            lookup(
                pre + entry_line(key, value) + post,
                other,
                (pre.len() + entry_line(key, value).len()) as int,
            ),
            later,
        ),
        other == key ==> later is None,
    ensures
        agrees(
            pre + entry_line(key, value) + post,
            lookup(pre + entry_line(key, value) + post, other, pre.len() as int),
            if other == key {
                Some(value)
            } else {
                later
            },
        ),
{
    reveal_strlit(" = ");
    reveal_strlit("\n");
    lemma_entry(pre, key, value, post, other);
    let text = pre + entry_line(key, value) + post;
    let from = pre.len() as int;
    let end = from + key.len() + 3 + value.len();
    assert(end + 1 == pre.len() + entry_line(key, value).len());
    assert(line_end(text, from) == end);
}

/// The end of a text gives nothing to any key.
proof fn lemma_end(text: Seq<char>, key: Seq<char>)
    ensures
        lookup(text, key, text.len() as int) is None,
{
    let size = text.len() as int;
    lemma_position_of(text, '\n', size, size, size);
    lemma_strip_start(text, Strip::Spaces, size, size, size);
}

/// What the line of `left` gives, wherever it stands.
proof fn lemma_from_left(pre: Seq<char>, settings: SettingsModel, key: Seq<char>)
    ensures
        agrees(
            pre + lines_from_left(settings),
            lookup(pre + lines_from_left(settings), key, pre.len() as int),
            given_from_left(settings, key),
        ),
{
    lemma_keys();
    lemma_decimal_text_is_plain(settings.left as int);
    let value = decimal_text(settings.left as int);
    let empty = Seq::<char>::empty();
    let text = pre + lines_from_left(settings);
    assert(text =~= pre + entry_line("left"@, value) + empty);
    lemma_end(text, key);
    lemma_line(pre, "left"@, value, empty, key, None);
}

/// What the lines from that of `top` on give, wherever they stand.
proof fn lemma_from_top(pre: Seq<char>, settings: SettingsModel, key: Seq<char>)
    ensures
        agrees(
            pre + lines_from_top(settings),
            lookup(pre + lines_from_top(settings), key, pre.len() as int),
            given_from_top(settings, key),
        ),
{
    lemma_keys();
    lemma_decimal_text_is_plain(settings.top as int);
    let value = decimal_text(settings.top as int);
    let line = entry_line("top"@, value);
    let post = lines_from_left(settings);
    let text = pre + lines_from_top(settings);
    assert(text =~= pre + line + post);
    assert(text =~= (pre + line) + post);
    lemma_from_left(pre + line, settings, key);
    lemma_line(pre, "top"@, value, post, key, given_from_left(settings, key));
}

/// What the lines from that of `start_browser` on give, wherever they stand.
proof fn lemma_from_flag(pre: Seq<char>, settings: SettingsModel, key: Seq<char>)
    ensures
        agrees(
            pre + lines_from_flag(settings),
            lookup(pre + lines_from_flag(settings), key, pre.len() as int),
            given_from_flag(settings, key),
        ),
{
    lemma_keys();
    reveal_strlit("true");
    reveal_strlit("false");
    let value = bool_text(settings.start_browser);
    let line = entry_line("start_browser"@, value);
    let post = lines_from_top(settings);
    let text = pre + lines_from_flag(settings);
    assert(text =~= pre + line + post);
    assert(text =~= (pre + line) + post);
    lemma_from_top(pre + line, settings, key);
    lemma_line(pre, "start_browser"@, value, post, key, given_from_top(settings, key));
}

/// What the lines after the heading give, wherever they stand.
proof fn lemma_from_folder(pre: Seq<char>, settings: SettingsModel, key: Seq<char>)
    requires
        settings.last_folder matches Some(folder) ==> is_storable_folder(folder),
    ensures
        agrees(
            pre + lines_from_folder(settings),
            lookup(pre + lines_from_folder(settings), key, pre.len() as int),
            given(settings, key),
        ),
{
    lemma_keys();
    let post = lines_from_flag(settings);
    let text = pre + lines_from_folder(settings);
    match settings.last_folder {
        Some(folder) => {
            reveal_strlit("\"");
            let value = quoted(folder);
            let line = entry_line("last_folder"@, value);
            assert(value[0] == '"');
            assert(value.last() == '"');
            assert forall|i: int| 0 <= i < value.len() implies (#[trigger] value[i]) != '\n' by {
                if 0 < i < value.len() - 1 {
                    assert(value[i] == folder[i - 1]);
                }
            }
            assert(text =~= pre + line + post);
            assert(text =~= (pre + line) + post);
            lemma_from_flag(pre + line, settings, key);
            lemma_line(pre, "last_folder"@, value, post, key, given_from_flag(settings, key));
        },
        None => {
            assert(text =~= pre + post);
            lemma_from_flag(pre, settings, key);
        },
    }
}

/// What a rendering gives to a key is what its lines give.
proof fn lemma_rendered_lookup(settings: SettingsModel, key: Seq<char>)
    requires
        settings.last_folder matches Some(folder) ==> is_storable_folder(folder),
    ensures
        agrees(rendered(settings), lookup(rendered(settings), key, 0), given(settings, key)),
{
    let text = rendered(settings);
    let head = heading_line();
    let post = lines_from_folder(settings);
    assert(text =~= head + post);
    lemma_from_folder(head, settings, key);
    lemma_heading(post, key);
}

/// The numbers of a rendering are read back.
proof fn lemma_numbers_read_back(settings: SettingsModel)
    requires
        settings.last_folder matches Some(folder) ==> is_storable_folder(folder),
    ensures
        number_of(rendered(settings), "top"@, 12) == settings.top,
        number_of(rendered(settings), "left"@, 52) == settings.left,
        is_complete(rendered(settings)),
{
    lemma_keys();
    lemma_rendered_lookup(settings, "top"@);
    lemma_rendered_lookup(settings, "left"@);
    decimal_round_trip(settings.top);
    decimal_round_trip(settings.left);
}

/// The truth value of a rendering is read back.
proof fn lemma_flag_read_back(settings: SettingsModel)
    requires
        settings.last_folder matches Some(folder) ==> is_storable_folder(folder),
    ensures
        flag_of(rendered(settings), "start_browser"@, true) == settings.start_browser,
{
    lemma_keys();
    lemma_flag_text(settings.start_browser);
    lemma_rendered_lookup(settings, "start_browser"@);
}

/// Taking the double quotes from a quoted folder leaves the folder.
proof fn lemma_unquoted(text: Seq<char>, part: (int, int), folder: Seq<char>)
    requires
        0 <= part.0 <= part.1 <= text.len(),
        value_text(text, part) == quoted(folder),
        is_storable_folder(folder),
    ensures
        value_text(text, stripped(text, Strip::Quotes, part.0, part.1)) == folder,
{
    reveal_strlit("\"");
    let value = value_text(text, part);
    let size = folder.len() as int;
    assert(value.len() == size + 2);
    assert(part.1 - part.0 == size + 2);
    assert(text[part.0] == value[0]);
    assert(text[part.1 - 1] == value[size + 1]);
    assert(text[part.0 + 1] == value[1]);
    if size > 0 {
        assert(value[1] == folder[0]);
        assert(text[part.1 - 2] == value[size]);
        assert(value[size] == folder[size - 1]);
        lemma_strip_start(text, Strip::Quotes, part.0, part.1, part.0 + 1);
        lemma_strip_end(text, Strip::Quotes, part.0 + 1, part.1, part.1 - 1);
        assert forall|i: int| 0 <= i < size implies text.subrange(part.0 + 1, part.1 - 1)[i]
            == folder[i] by {
            assert(text[part.0 + 1 + i] == value[i + 1]);
        }
        assert(text.subrange(part.0 + 1, part.1 - 1) =~= folder);
    } else {
        lemma_strip_start(text, Strip::Quotes, part.0, part.1, part.1);
        lemma_strip_end(text, Strip::Quotes, part.1, part.1, part.1);
        assert(text.subrange(part.1, part.1) =~= folder);
    }
}

/// The folder of a rendering is read back.
proof fn lemma_folder_read_back(settings: SettingsModel)
    requires
        settings.last_folder matches Some(folder) ==> is_storable_folder(folder),
    ensures
        folder_of(rendered(settings)) == settings.last_folder,
{
    lemma_keys();
    lemma_rendered_lookup(settings, "last_folder"@);
    let text = rendered(settings);
    match settings.last_folder {
        Some(folder) => {
            let part = lookup(text, "last_folder"@, 0)->0;
            lemma_unquoted(text, part, folder);
        },
        None => {},
    }
}

/// What is written is read back: the settings of a rendered text are the
/// settings that were rendered, and the text states every setting. The folder,
/// if there is one, must be one that can be kept in the text.
pub proof fn settings_round_trip(settings: SettingsModel)
    requires
        settings.last_folder matches Some(folder) ==> is_storable_folder(folder),
    ensures
        settings_of(rendered(settings)) == settings,
        is_complete(rendered(settings)),
{
    lemma_numbers_read_back(settings);
    lemma_flag_read_back(settings);
    lemma_folder_read_back(settings);
}

} // verus!
