use vstd::prelude::*;
use crate::text::push_char;

verus! {

broadcast use vstd::string::group_string_axioms;

/// Whether `name` is the name of a key that `device_query` knows.
pub uninterp spec fn is_keycode_name(name: Seq<char>) -> bool;

/// Calls `device_query::Keycode::from_str`. Its source matches the text against
/// the names of the `Keycode` variants and succeeds exactly on those names;
/// the key's `Debug` form is that same name, which is what is returned.
/// The list of names is left to `is_keycode_name`.
#[verifier::external_body]
fn keycode_name(name: &str) -> (key: Option<String>)
    ensures
        key is Some <==> is_keycode_name(name@),
        key matches Some(k) ==> k@ == name@,
{
    match <device_query::Keycode as std::str::FromStr>::from_str(name) {
        Ok(k) => Some(format!("{:?}", k)),
        Err(_) => None,
    }
}

/// The characters that mark modifiers in a hotkey's text:
/// `!` Alt, `^` Control, `+` Shift, `#` the Windows key.
pub open spec fn is_modifier_char(c: char) -> bool {
    c == '!' || c == '^' || c == '+' || c == '#'
}

/// The text with every modifier character removed.
pub open spec fn strip_modifiers(s: Seq<char>) -> Seq<char>
    decreases s.len(),
{
    if s.len() == 0 {
        seq![]
    } else if is_modifier_char(s.last()) {
        strip_modifiers(s.drop_last())
    } else {
        strip_modifiers(s.drop_last()).push(s.last())
    }
}

/// A hotkey as values: (alt, ctrl, shift, win, key name).
pub type HotKeyModel = (bool, bool, bool, bool, Seq<char>);

/// What a hotkey's text means: the modifiers whose character occurs anywhere in
/// it, and the key named by what is left once those characters are removed.
pub open spec fn parse_hotkey(s: Seq<char>) -> Option<HotKeyModel> {
    if is_keycode_name(strip_modifiers(s)) {
        Some((s.contains('!'), s.contains('^'), s.contains('+'), s.contains('#'), strip_modifiers(s)))
    } else {
        None
    }
}

/// The text of a hotkey: its modifier characters in the order `!^+#`, then the key.
pub open spec fn hotkey_text(h: HotKeyModel) -> Seq<char> {
    (if h.0 { seq!['!'] } else { seq![] }) + (if h.1 { seq!['^'] } else { seq![] }) + (if h.2 {
        seq!['+']
    } else {
        seq![]
    }) + (if h.3 { seq!['#'] } else { seq![] }) + h.4
}

/// Whether a key of the given name is among the pressed keys.
pub open spec fn key_down(keys: Seq<String>, name: Seq<char>) -> bool {
    exists|i: int| 0 <= i < keys.len() && #[trigger] keys[i]@ == name
}

/// A hotkey is pressed when, for each modifier it asks for, the left or the
/// right one of that modifier is down, and its key is down.
pub open spec fn hotkey_pressed(h: HotKeyModel, keys: Seq<String>) -> bool {
    &&& h.0 ==> key_down(keys, "LAlt"@) || key_down(keys, "RAlt"@)
    &&& h.1 ==> key_down(keys, "LControl"@) || key_down(keys, "RControl"@)
    &&& h.2 ==> key_down(keys, "LShift"@) || key_down(keys, "RShift"@)
    &&& h.3 ==> key_down(keys, "LMeta"@) || key_down(keys, "RMeta"@)
    &&& key_down(keys, h.4)
}

/// A key combination, such as `^+F5` for Control + Shift + F5.
#[derive(Debug, Clone)]
pub struct HotKey {
    pub alt: bool,
    pub ctrl: bool,
    pub shift: bool,
    pub win: bool,
    /// The name of the key, as `device_query` spells it.
    pub key: String,
}

impl View for HotKey {
    type V = HotKeyModel;

    open spec fn view(&self) -> HotKeyModel {
        (self.alt, self.ctrl, self.shift, self.win, self.key@)
    }
}

/// Whether `text` holds the character `c`.
pub fn contains_char(text: &str, c: char) -> (found: bool)
    ensures
        found == text@.contains(c),
{
    let mut found = false;
    for d in it: text.chars()
        invariant
            it.seq() == text@,
            found == text@.take(it.index()).contains(c),
    {
        let ghost i = it.index();
        assert(text@.take(i + 1) =~= text@.take(i).push(d));
        if d == c {
            found = true;
        }
        assert(text@.take(i).push(d).contains(c) == (text@.take(i).contains(c) || d == c)) by {
            if d == c {
                assert(text@.take(i).push(d)[i] == c);
            }
            if text@.take(i).push(d).contains(c) {
                let j = choose|j: int| 0 <= j < text@.take(i).push(d).len() && text@.take(i).push(d)[j] == c;
                if j < i {
                    assert(text@.take(i)[j] == c);
                }
            }
        }
    }
    assert(text@.take(text@.len() as int) =~= text@);
    found
}

/// The text with every modifier character removed.
fn remove_modifiers(text: &str) -> (cleaned: String)
    ensures
        cleaned@ == strip_modifiers(text@),
{
    let mut cleaned = String::new();
    for d in it: text.chars()
        invariant
            it.seq() == text@,
            cleaned@ == strip_modifiers(text@.take(it.index())),
    {
        let ghost i = it.index();
        assert(text@.take(i + 1).drop_last() =~= text@.take(i));
        if !(d == '!' || d == '^' || d == '+' || d == '#') {
            push_char(&mut cleaned, d);
        }
    }
    assert(text@.take(text@.len() as int) =~= text@);
    cleaned
}

/// Whether a key of the given name is among the pressed keys.
fn is_key_down(keys: &Vec<String>, name: &String) -> (down: bool)
    ensures
        down == key_down(keys@, name@),
{
    for i in 0..keys.len()
        invariant
            forall|j: int| 0 <= j < i ==> keys@[j]@ != name@,
    {
        if keys[i] == *name {
            return true;
        }
    }
    false
}

/// Whether the left or the right variant of a modifier is down.
fn either_down(keys: &Vec<String>, left: &str, right: &str) -> (down: bool)
    ensures
        down == (key_down(keys@, left@) || key_down(keys@, right@)),
{
    let l = String::from_str(left);
    let r = String::from_str(right);
    is_key_down(keys, &l) || is_key_down(keys, &r)
}

impl HotKey {
    /// Parses a hotkey's text: `!`, `^`, `+` and `#` anywhere in it ask for
    /// Alt, Control, Shift and the Windows key; the rest must name a key.
    /// Fails with "KeyCode invalid!" when it does not.
    pub fn parse(s: &str) -> (res: Result<HotKey, String>)
        ensures
            match res {
                Ok(h) => parse_hotkey(s@) == Some(h@),
                Err(e) => parse_hotkey(s@) is None && e@ == "KeyCode invalid!"@,
            },
    {
        let alt = contains_char(s, '!');
        let ctrl = contains_char(s, '^');
        let shift = contains_char(s, '+');
        let win = contains_char(s, '#');
        let cleaned_str = remove_modifiers(s);
        match keycode_name(cleaned_str.as_str()) {
            Some(key) => Ok(HotKey { alt, ctrl, shift, win, key }),
            None => Err(String::from_str("KeyCode invalid!")),
        }
    }

    /// Whether the hotkey is held down, given the names of the keys that are down.
    pub fn pressed(self, keys: &Vec<String>) -> (down: bool)
        ensures
            down == hotkey_pressed(self@, keys@),
    {
        if self.alt {
            if !either_down(keys, "LAlt", "RAlt") {
                return false;
            }
        }
        if self.ctrl {
            if !either_down(keys, "LControl", "RControl") {
                return false;
            }
        }
        if self.shift {
            if !either_down(keys, "LShift", "RShift") {
                return false;
            }
        }
        if self.win {
            if !either_down(keys, "LMeta", "RMeta") {
                return false;
            }
        }
        if is_key_down(keys, &self.key) {
            return true;
        }
        false
    }

    /// The hotkey's text, as it is displayed: `!^+#` for the modifiers it asks
    /// for, in that order, then the key's name.
    pub fn to_string(&self) -> (text: String)
        ensures
            text@ == hotkey_text(self@),
    {
        let mut text = String::new();
        if self.alt {
            push_char(&mut text, '!');
        }
        if self.ctrl {
            push_char(&mut text, '^');
        }
        if self.shift {
            push_char(&mut text, '+');
        }
        if self.win {
            push_char(&mut text, '#');
        }
        text.append(self.key.as_str());
        assert(text@ =~= hotkey_text(self@));
        text
    }
}

/// Removing modifier characters from a concatenation removes them from each part.
proof fn lemma_strip_concat(a: Seq<char>, b: Seq<char>)
    ensures
        strip_modifiers(a + b) == strip_modifiers(a) + strip_modifiers(b),
    decreases b.len(),
{
    if b.len() == 0 {
        assert(a + b =~= a);
        assert(strip_modifiers(a) + strip_modifiers(b) =~= strip_modifiers(a));
    } else {
        lemma_strip_concat(a, b.drop_last());
        assert((a + b).drop_last() =~= a + b.drop_last());
        assert((a + b).last() == b.last());
        if !is_modifier_char(b.last()) {
            assert(strip_modifiers(a) + strip_modifiers(b) =~= (strip_modifiers(a) + strip_modifiers(
                b.drop_last(),
            )).push(b.last()));
        }
    }
}

/// What is left after removing modifier characters holds none.
proof fn lemma_strip_has_no_modifiers(s: Seq<char>)
    ensures
        forall|i: int| 0 <= i < strip_modifiers(s).len() ==> !is_modifier_char(
            #[trigger] strip_modifiers(s)[i],
        ),
    decreases s.len(),
{
    if s.len() > 0 {
        lemma_strip_has_no_modifiers(s.drop_last());
        let r = strip_modifiers(s.drop_last());
        if !is_modifier_char(s.last()) {
            assert forall|i: int| 0 <= i < r.push(s.last()).len() implies !is_modifier_char(
                #[trigger] r.push(s.last())[i],
            ) by {
                if i < r.len() {
                    assert(r.push(s.last())[i] == r[i]);
                }
            }
        }
    }
}

/// Text without modifier characters is left as it is.
proof fn lemma_strip_keeps_plain(s: Seq<char>)
    requires
        forall|i: int| 0 <= i < s.len() ==> !is_modifier_char(#[trigger] s[i]),
    ensures
        strip_modifiers(s) == s,
    decreases s.len(),
{
    if s.len() > 0 {
        lemma_strip_keeps_plain(s.drop_last());
        assert(s.drop_last().push(s.last()) =~= s);
    }
}

/// Text made only of modifier characters is removed entirely.
proof fn lemma_strip_all_modifiers(s: Seq<char>)
    requires
        forall|i: int| 0 <= i < s.len() ==> is_modifier_char(#[trigger] s[i]),
    ensures
        strip_modifiers(s) == Seq::<char>::empty(),
    decreases s.len(),
{
    if s.len() > 0 {
        lemma_strip_all_modifiers(s.drop_last());
    }
}

/// Printing a hotkey that was parsed and parsing the text again gives the same
/// hotkey: the printed text is the canonical form of a hotkey.
pub proof fn lemma_hotkey_text_round_trip(s: Seq<char>, h: HotKeyModel)
    requires
        parse_hotkey(s) == Some(h),
    ensures
        parse_hotkey(hotkey_text(h)) == Some(h),
{
    let prefix = (if h.0 { seq!['!'] } else { seq![] }) + (if h.1 { seq!['^'] } else { seq![] }) + (
    if h.2 {
        seq!['+']
    } else {
        seq![]
    }) + (if h.3 { seq!['#'] } else { seq![] });
    let key = h.4;
    assert(hotkey_text(h) == prefix + key);
    lemma_strip_has_no_modifiers(s);
    assert(key == strip_modifiers(s));
    assert forall|i: int| 0 <= i < prefix.len() implies is_modifier_char(#[trigger] prefix[i]) by {}
    lemma_strip_all_modifiers(prefix);
    lemma_strip_keeps_plain(key);
    lemma_strip_concat(prefix, key);
    assert(strip_modifiers(hotkey_text(h)) =~= key);
    let t = hotkey_text(h);
    assert forall|c: char| is_modifier_char(c) implies (t.contains(c) <==> prefix.contains(c)) by {
        if t.contains(c) {
            let i = choose|i: int| 0 <= i < t.len() && t[i] == c;
            if i >= prefix.len() {
                assert(key[i - prefix.len()] == c);
            } else {
                assert(prefix[i] == c);
            }
        }
        if prefix.contains(c) {
            let i = choose|i: int| 0 <= i < prefix.len() && prefix[i] == c;
            assert(t[i] == c);
        }
    }
    assert(prefix.contains('!') == h.0) by {
        if h.0 { assert(prefix[0] == '!'); }
    }
    assert(prefix.contains('^') == h.1) by {
        if h.1 { assert(prefix[(if h.0 { 1int } else { 0int })] == '^'); }
    }
    assert(prefix.contains('+') == h.2) by {
        if h.2 { assert(prefix[(if h.0 { 1int } else { 0int }) + (if h.1 { 1int } else { 0int })] == '+'); }
    }
    assert(prefix.contains('#') == h.3) by {
        if h.3 {
            assert(prefix[(if h.0 { 1int } else { 0int }) + (if h.1 { 1int } else { 0int }) + (if h.2 { 1int } else { 0int })] == '#');
        }
    }
}

/// What the modifier characters mean: a parsed hotkey asks for Alt exactly
/// when its text holds `!`, for Control when it holds `^`, for Shift when it
/// holds `+` and for the Windows key when it holds `#`; its key name holds none
/// of these; and its printed text starts with `!` exactly when it asks for Alt.
pub proof fn lemma_modifier_characters(s: Seq<char>, h: HotKeyModel)
    requires
        parse_hotkey(s) == Some(h),
    ensures
        h.0 == s.contains('!'),
        h.1 == s.contains('^'),
        h.2 == s.contains('+'),
        h.3 == s.contains('#'),
        !h.4.contains('!') && !h.4.contains('^') && !h.4.contains('+') && !h.4.contains('#'),
        h.0 <==> (hotkey_text(h).len() > 0 && hotkey_text(h)[0] == '!'),
{
    lemma_strip_has_no_modifiers(s);
    let k = h.4;
    assert forall|c: char| c == '!' || c == '^' || c == '+' || c == '#' implies !k.contains(c) by {
        if k.contains(c) {
            let i = choose|i: int| 0 <= i < k.len() && k[i] == c;
            assert(!is_modifier_char(k[i]));
        }
    }
    let t = hotkey_text(h);
    lemma_hotkey_text_round_trip(s, h);
    assert(is_keycode_name(strip_modifiers(t)));
    if k.len() == 0 {
        assert(strip_modifiers(s) == k);
    }
    if !h.0 && t.len() > 0 {
        if t[0] == '!' {
            assert(t.contains('!'));
        }
    }
    if h.0 {
        assert(t[0] == '!');
    }
    assert(t.contains('!') == h.0);
}

/// Pressing more keys never releases a hotkey: if a hotkey is pressed with
/// some keys down, it is pressed with any superset of them down.
pub proof fn lemma_pressed_monotone(h: HotKeyModel, keys: Seq<String>, more: Seq<String>)
    requires
        forall|i: int| 0 <= i < keys.len() ==> key_down(more, #[trigger] keys[i]@),
    ensures
        hotkey_pressed(h, keys) ==> hotkey_pressed(h, more),
{
    assert forall|name: Seq<char>| key_down(keys, name) implies key_down(more, name) by {
        let i = choose|i: int| 0 <= i < keys.len() && #[trigger] keys[i]@ == name;
        assert(key_down(more, keys[i]@));
    }
}

/// When a hotkey is held down: every modifier it asks for has its left or its
/// right key among the keys that are down (either one is enough, both sides
/// alike), and its own key is among them. Nothing else matters.
pub proof fn lemma_pressed_exactly_when(h: HotKeyModel, keys: Seq<String>)
    ensures
        hotkey_pressed(h, keys) <==> {
            &&& h.0 ==> exists|i: int|
                0 <= i < keys.len() && (#[trigger] keys[i]@ == "LAlt"@ || keys[i]@ == "RAlt"@)
            &&& h.1 ==> exists|i: int|
                0 <= i < keys.len() && (#[trigger] keys[i]@ == "LControl"@ || keys[i]@ == "RControl"@)
            &&& h.2 ==> exists|i: int|
                0 <= i < keys.len() && (#[trigger] keys[i]@ == "LShift"@ || keys[i]@ == "RShift"@)
            &&& h.3 ==> exists|i: int|
                0 <= i < keys.len() && (#[trigger] keys[i]@ == "LMeta"@ || keys[i]@ == "RMeta"@)
            &&& exists|i: int| 0 <= i < keys.len() && #[trigger] keys[i]@ == h.4
        },
{
    assert forall|l: Seq<char>, r: Seq<char>|
        (key_down(keys, l) || key_down(keys, r)) <==> (exists|i: int|
            0 <= i < keys.len() && (#[trigger] keys[i]@ == l || keys[i]@ == r)) by {
        if exists|i: int| 0 <= i < keys.len() && (#[trigger] keys[i]@ == l || keys[i]@ == r) {
            let i = choose|i: int| 0 <= i < keys.len() && (#[trigger] keys[i]@ == l || keys[i]@ == r);
            if keys[i]@ == l {
                assert(key_down(keys, l));
            } else {
                assert(key_down(keys, r));
            }
        }
    }
}

/// The right-hand variant of each modifier is as good as the left-hand one:
/// a hotkey whose key is down, with the right Alt, Control, Shift and Windows
/// keys down for the modifiers it asks for, is held down.
pub proof fn lemma_right_modifiers_suffice(h: HotKeyModel, keys: Seq<String>)
    requires
        exists|i: int| 0 <= i < keys.len() && #[trigger] keys[i]@ == h.4,
        h.0 ==> exists|i: int| 0 <= i < keys.len() && #[trigger] keys[i]@ == "RAlt"@,
        h.1 ==> exists|i: int| 0 <= i < keys.len() && #[trigger] keys[i]@ == "RControl"@,
        h.2 ==> exists|i: int| 0 <= i < keys.len() && #[trigger] keys[i]@ == "RShift"@,
        h.3 ==> exists|i: int| 0 <= i < keys.len() && #[trigger] keys[i]@ == "RMeta"@,
    ensures
        hotkey_pressed(h, keys),
{
    lemma_pressed_exactly_when(h, keys);
}

/// The left-hand variant of each modifier suffices as well.
pub proof fn lemma_left_modifiers_suffice(h: HotKeyModel, keys: Seq<String>)
    requires
        exists|i: int| 0 <= i < keys.len() && #[trigger] keys[i]@ == h.4,
        h.0 ==> exists|i: int| 0 <= i < keys.len() && #[trigger] keys[i]@ == "LAlt"@,
        h.1 ==> exists|i: int| 0 <= i < keys.len() && #[trigger] keys[i]@ == "LControl"@,
        h.2 ==> exists|i: int| 0 <= i < keys.len() && #[trigger] keys[i]@ == "LShift"@,
        h.3 ==> exists|i: int| 0 <= i < keys.len() && #[trigger] keys[i]@ == "LMeta"@,
    ensures
        hotkey_pressed(h, keys),
{
    lemma_pressed_exactly_when(h, keys);
}

impl std::str::FromStr for HotKey {
    type Err = String;

    fn from_str(s: &str) -> (res: Result<Self, Self::Err>)
        ensures
            match res {
                Ok(h) => parse_hotkey(s@) == Some(h@),
                Err(e) => parse_hotkey(s@) is None && e@ == "KeyCode invalid!"@,
            },
    {
        HotKey::parse(s)
    }
}

} // verus!
