//! The decisions of the yes/no prompt and of the menu prompt, from one
//! keystroke to an answer, the validation of a menu, and the text of an
//! underlined heading. Printing and reading are left to the caller.

use crate::keystroke::{scalar_of, Keystroke};
use vstd::prelude::*;
use vstd::string::{StrSliceExecFns, StringExecFns};

verus! {

/// The carriage return byte, sent by the enter key.
pub const ENTER: u8 = 13;

/// The answer a keystroke gives to a yes/no question: enter gives the
/// default, if there is one; `y` or `Y` gives yes and `n` or `N` gives no.
/// `None` means that the question is to be asked again.
pub open spec fn yn_answer(default: Option<bool>, b: Seq<u8>) -> Option<bool> {
    if b[0] == ENTER && default is Some {
        default
    } else {
        match scalar_of(b) {
            Some(c) => if c == 'y' || c == 'Y' {
                Some(true)
            } else if c == 'n' || c == 'N' {
                Some(false)
            } else {
                None
            },
            None => None,
        }
    }
}

/// The answer `k` gives to a yes/no question with the given default.
pub fn yn_choice(default: Option<bool>, k: &Keystroke) -> (r: Option<bool>)
    ensures
        r == yn_answer(default, k.0@),
{
    if k.is_enter() && default.is_some() {
        return default;
    }
    match k.as_char() {
        Some(c) => {
            if c == 'y' || c == 'Y' {
                Some(true)
            } else if c == 'n' || c == 'N' {
                Some(false)
            } else {
                None
            }
        },
        None => None,
    }
}

/// The hotkeys of a menu: the first character of each entry that has one,
/// in order.
pub open spec fn hotkeys(entries: Seq<Seq<char>>) -> Seq<char>
    decreases entries.len(),
{
    if entries.len() == 0 {
        seq![]
    } else {
        let rest = hotkeys(entries.drop_last());
        if entries.last().len() > 0 {
            rest.push(entries.last()[0])
        } else {
            rest
        }
    }
}

/// The hotkeys of the first entries come first among the hotkeys of all.
pub proof fn lemma_hotkeys_prefix(entries: Seq<Seq<char>>, j: int)
    requires
        0 <= j <= entries.len(),
    ensures
        hotkeys(entries.take(j)).len() <= hotkeys(entries).len(),
        hotkeys(entries.take(j)) == hotkeys(entries).take(hotkeys(entries.take(j)).len() as int),
    decreases entries.len(),
{
    if j < entries.len() {
        assert(entries.drop_last().take(j) =~= entries.take(j));
        lemma_hotkeys_prefix(entries.drop_last(), j);
    } else {
        assert(entries.take(j) =~= entries);
    }
}

/// What is wrong with a menu.
#[derive(Debug, Clone, Copy, PartialEq, Eq, Structural)]
pub enum MenuError {
    /// Two entries start with this character.
    DuplicateHotkey(char),
    /// The default is no entry's hotkey.
    UnknownDefault(char),
}

/// `c` occurs at two positions of `s`.
pub open spec fn repeated(s: Seq<char>, c: char) -> bool {
    exists|a: int, b: int| 0 <= a < b < s.len() && #[trigger] s[a] == c && #[trigger] s[b] == c
}

/// The views of a list of strings.
pub open spec fn char_seqs(entries: Seq<String>) -> Seq<Seq<char>> {
    entries.map_values(|s: String| s@)
}

/// Whether `c` is among `v`.
fn contains_char(v: &Vec<char>, c: char) -> (r: bool)
    ensures
        r == v@.contains(c),
{
    let mut i: usize = 0;
    while i < v.len()
        invariant
            i <= v.len(),
            forall|j: int| 0 <= j < i ==> v@[j] != c,
        decreases v.len() - i,
    {
        if v[i] == c {
            return true;
        }
        i = i + 1;
    }
    false
}

/// The hotkeys of a menu, checked: no two entries may share a hotkey, and
/// the default, if there is one, must be a hotkey.
pub fn menu_hotkeys(entries: &Vec<String>, default: Option<char>) -> (r: Result<
    Vec<char>,
    MenuError,
>)
    ensures
        r is Ok <==> hotkeys(char_seqs(entries@)).no_duplicates() && (default matches Some(d)
            ==> hotkeys(char_seqs(entries@)).contains(d)),
        r matches Ok(v) ==> v@ == hotkeys(char_seqs(entries@)),
        r matches Err(MenuError::DuplicateHotkey(c)) ==> !hotkeys(
            char_seqs(entries@),
        ).no_duplicates() && repeated(hotkeys(char_seqs(entries@)), c),
        r matches Err(MenuError::UnknownDefault(d)) ==> hotkeys(
            char_seqs(entries@),
        ).no_duplicates() && default == Some(d) && !hotkeys(char_seqs(entries@)).contains(d),
{
    let ghost es = char_seqs(entries@);
    let mut choices: Vec<char> = Vec::new();
    let mut i: usize = 0;
    while i < entries.len()
        invariant
            i <= entries.len(),
            es == char_seqs(entries@),
            choices@ == hotkeys(es.take(i as int)),
            choices@.no_duplicates(),
        decreases entries.len() - i,
    {
        let entry = entries[i].as_str();
        proof {
            assert(es.take(i + 1).drop_last() =~= es.take(i as int));
            assert(es.take(i + 1).last() == entry@);
        }
        if entry.unicode_len() > 0 {
            let c = entry.get_char(0);
            if contains_char(&choices, c) {
                proof {
                    lemma_hotkeys_prefix(es, i + 1);
                    let h = hotkeys(es);
                    let p = choices@.push(c);
                    assert(hotkeys(es.take(i + 1)) == p);
                    assert(h.take(p.len() as int) == p);
                    assert(h.take(p.len() as int)[p.len() - 1] == c);
                    let k = choose|k: int| 0 <= k < choices@.len() && choices@[k] == c;
                    assert(p[k] == c);
                    assert(h.take(p.len() as int)[k] == h[k]);
                    assert(h[k] == c && h[p.len() - 1] == c);
                    assert(repeated(h, c));
                }
                return Err(MenuError::DuplicateHotkey(c));
            }
            choices.push(c);
        }
        i = i + 1;
    }
    proof {
        assert(es.take(i as int) =~= es);
    }
    if let Some(d) = default {
        if !contains_char(&choices, d) {
            return Err(MenuError::UnknownDefault(d));
        }
    }
    Ok(choices)
}

/// The answer a keystroke gives to a menu: enter gives the default, if
/// there is one; a hotkey gives itself. `None` means that the question is
/// to be asked again.
pub open spec fn menu_answer(hotkeys: Seq<char>, default: Option<char>, b: Seq<u8>) -> Option<
    char,
> {
    if b[0] == ENTER && default is Some {
        default
    } else {
        match scalar_of(b) {
            Some(c) => if hotkeys.contains(c) {
                Some(c)
            } else {
                None
            },
            None => None,
        }
    }
}

/// The answer `k` gives to a menu with the given hotkeys and default.
pub fn menu_choice(hotkeys: &Vec<char>, default: Option<char>, k: &Keystroke) -> (r: Option<
    char,
>)
    ensures
        r == menu_answer(hotkeys@, default, k.0@),
{
    if k.is_enter() && default.is_some() {
        return default;
    }
    match k.as_char() {
        Some(c) => {
            if contains_char(hotkeys, c) {
                Some(c)
            } else {
                None
            }
        },
        None => None,
    }
}

/// `msg` on a line of its own, underlined with one `-` for each of its
/// characters.
pub fn underscored_heading(msg: &str) -> (r: String)
    ensures
        r@ == msg@ + seq!['\n'] + Seq::new(msg@.len(), |i: int| '-') + seq!['\n'],
{
    let n = msg.unicode_len();
    let mut r = String::from_str(msg);
    proof {
        reveal_strlit("\n");
        reveal_strlit("-");
    }
    r.append("\n");
    let mut i: usize = 0;
    while i < n
        invariant
            i <= n,
            n == msg@.len(),
            "-"@ == seq!['-'],
            r@ == msg@ + seq!['\n'] + Seq::new(i as nat, |j: int| '-'),
        decreases n - i,
    {
        r.append("-");
        assert(r@ =~= msg@ + seq!['\n'] + Seq::new((i + 1) as nat, |j: int| '-'));
        i = i + 1;
    }
    r.append("\n");
    r
}

} // verus!
