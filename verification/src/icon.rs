//! The picture shown beside an entry: a file chosen by the user, or one or
//! two initials taken from the entry's name.

use vstd::prelude::*;
use vstd::string::*;

verus! {

/// Icon of an entry.
#[derive(Debug, PartialEq, Eq)]
pub enum TotpIcon {
    /// An image file, by its path.
    Image { path: String },
    /// One or two characters drawn in place of an image.
    Initials { initials: String },
}

/// Mathematical value of a [`TotpIcon`].
pub enum IconView {
    Image { path: Seq<char> },
    Initials { initials: Seq<char> },
}

impl View for TotpIcon {
    type V = IconView;

    open spec fn view(&self) -> IconView {
        match self {
            TotpIcon::Image { path } => IconView::Image { path: path@ },
            TotpIcon::Initials { initials } => IconView::Initials { initials: initials@ },
        }
    }
}

impl Clone for TotpIcon {
    fn clone(&self) -> (copy: Self)
        ensures
            copy@ == self@,
    {
        match self {
            TotpIcon::Image { path } => TotpIcon::Image { path: path.clone() },
            TotpIcon::Initials { initials } => TotpIcon::Initials { initials: initials.clone() },
        }
    }
}

/// Whether `char::is_whitespace` holds of a character: whether it has the
/// Unicode property `White_Space`.
pub uninterp spec fn char_is_whitespace(c: char) -> bool;

/// `char::is_whitespace` of std, by its name in contracts.
pub assume_specification[ char::is_whitespace ](c: char) -> (b: bool)
    ensures
        b == char_is_whitespace(c),
;

/// `String::push` of std appends one character.
pub assume_specification[ String::push ](s: &mut String, ch: char)
    ensures
        final(s)@ == old(s)@.push(ch),
;

/// Character shown where a name has no visible character.
pub const PLACEHOLDER: char = '-';

/// First position at or after `from` that holds no whitespace, or the end.
pub open spec fn skip_whitespace(s: Seq<char>, from: int) -> int
    decreases s.len() - from,
{
    if 0 <= from < s.len() && char_is_whitespace(s[from]) {
        skip_whitespace(s, from + 1)
    } else {
        from
    }
}

/// First position at or after `from` that holds whitespace, or the end.
pub open spec fn skip_word(s: Seq<char>, from: int) -> int
    decreases s.len() - from,
{
    if 0 <= from < s.len() && !char_is_whitespace(s[from]) {
        skip_word(s, from + 1)
    } else {
        from
    }
}

/// The initials of a name. With two words or more: the first characters of
/// the first two words. With one word: its first two characters, or its only
/// one. With none: the placeholder.
pub open spec fn initials_of(name: Seq<char>) -> Seq<char> {
    let first = skip_whitespace(name, 0);
    if first >= name.len() {
        seq![PLACEHOLDER]
    } else {
        let end = skip_word(name, first);
        let second = skip_whitespace(name, end);
        if second < name.len() {
            seq![name[first], name[second]]
        } else if end - first >= 2 {
            seq![name[first], name[first + 1]]
        } else {
            seq![name[first]]
        }
    }
}

pub proof fn lemma_skip_bounds(s: Seq<char>, from: int)
    requires
        0 <= from <= s.len(),
    ensures
        from <= skip_whitespace(s, from) <= s.len(),
        from <= skip_word(s, from) <= s.len(),
        skip_whitespace(s, from) < s.len() ==> !char_is_whitespace(s[skip_whitespace(s, from)]),
        from < s.len() && !char_is_whitespace(s[from]) ==> skip_word(s, from) > from,
    decreases s.len() - from,
{
    if from < s.len() {
        lemma_skip_bounds(s, from + 1);
    }
}

/// Initials have one or two characters.
pub proof fn lemma_initials_len(name: Seq<char>)
    ensures
        1 <= initials_of(name).len() <= 2,
{
}

fn scan(name: &str, len: usize, from: usize, over_whitespace: bool) -> (to: usize)
    requires
        len == name@.len(),
        from <= len,
    ensures
        from <= to <= len,
        over_whitespace ==> to == skip_whitespace(name@, from as int),
        !over_whitespace ==> to == skip_word(name@, from as int),
{
    let mut i: usize = from;
    while i < len && name.get_char(i).is_whitespace() == over_whitespace
        invariant
            len == name@.len(),
            from <= i <= len,
            over_whitespace ==> skip_whitespace(name@, from as int) == skip_whitespace(name@, i as int),
            !over_whitespace ==> skip_word(name@, from as int) == skip_word(name@, i as int),
        decreases len - i,
    {
        i = i + 1;
    }
    i
}

impl TotpIcon {
    /// The icon of an entry for which no image was chosen.
    pub fn default_for_name(name: &str) -> (icon: TotpIcon)
        ensures
            icon@ == (IconView::Initials { initials: initials_of(name@) }),
    {
        let len = name.unicode_len();
        let mut initials = String::new();
        let first = scan(name, len, 0, true);
        if first >= len {
            initials.push(PLACEHOLDER);
        } else {
            let end = scan(name, len, first, false);
            let second = scan(name, len, end, true);
            initials.push(name.get_char(first));
            proof {
                lemma_skip_bounds(name@, first as int);
            }
            if second < len {
                initials.push(name.get_char(second));
            } else if end - first >= 2 {
                initials.push(name.get_char(first + 1));
            }
        }
        assert(initials@ =~= initials_of(name@));
        TotpIcon::Initials { initials }
    }

    /// Whether the icon is made of initials.
    pub fn is_initials(&self) -> (b: bool)
        ensures
            b == (self@ is Initials),
    {
        match self {
            TotpIcon::Initials { .. } => true,
            TotpIcon::Image { .. } => false,
        }
    }
}

} // verus!
