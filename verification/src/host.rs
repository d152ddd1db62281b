//! Choosing the audio host: the menu of hosts shown to the user, the
//! reading of the user's answer, and the error type of the analysis setup.

use vstd::prelude::*;

verus! {

use vstd::string::StringExecFns;

/// The byte of the ASCII digit `0`.
pub const DIGIT_ZERO: u8 = 48;

/// The byte of the ASCII plus sign.
pub const PLUS_SIGN: u8 = 43;

pub open spec fn is_digit(b: u8) -> bool {
    DIGIT_ZERO <= b <= DIGIT_ZERO + 9
}

pub open spec fn all_digits(s: Seq<u8>) -> bool {
    forall|i: int| 0 <= i < s.len() ==> #[trigger] is_digit(s[i])
}

/// The number that a sequence of decimal digits denotes.
pub open spec fn digits_value(s: Seq<u8>) -> nat
    decreases s.len(),
{
    if s.len() == 0 {
        0
    } else {
        digits_value(s.drop_last()) * 10 + (s.last() - DIGIT_ZERO) as nat
    }
}

/// The digits of a text that is an optional `+` followed by the digits.
pub open spec fn unsigned_digits(s: Seq<u8>) -> Seq<u8> {
    if s.len() > 0 && s[0] == PLUS_SIGN {
        s.drop_first()
    } else {
        s
    }
}

/// The index that a text denotes when read as an unsigned decimal integer:
/// an optional `+`, then at least one ASCII digit and nothing else, of a
/// value that fits in `usize`. Any other text denotes no index.
///
/// This is how the text reads once decoded as UTF-8 with invalid sequences
/// replaced and then parsed as a `usize`: decoding maps each ASCII byte to
/// the same character and every other byte to a non-ASCII character, and
/// the parse accepts exactly the texts above.
pub open spec fn parsed_index(s: Seq<u8>) -> Option<usize> {
    let d = unsigned_digits(s);
    if d.len() > 0 && all_digits(d) && digits_value(d) <= usize::MAX {
        Some(digits_value(d) as usize)
    } else {
        None
    }
}

/// The host that an answer selects among `host_count` hosts: the index it
/// denotes, if that is one of the hosts.
pub open spec fn selected_host(answer: Seq<u8>, host_count: nat) -> Option<usize> {
    match parsed_index(answer) {
        Some(i) => if i < host_count {
            Some(i)
        } else {
            None
        },
        None => None,
    }
}

/// The character of the decimal digit `d`.
pub open spec fn digit_char(d: nat) -> char {
    (d + 48) as char
}

/// The decimal representation of `n`, without leading zeros.
pub open spec fn decimal(n: nat) -> Seq<char>
    decreases n,
{
    if n < 10 {
        seq![digit_char(n)]
    } else {
        decimal(n / 10) + seq![digit_char(n % 10)]
    }
}

/// The menu line of host number `idx`: its number, ` - `, its name.
pub open spec fn menu_entry(idx: nat, name: Seq<char>) -> Seq<char> {
    decimal(idx) + seq![' ', '-', ' '] + name
}

/// The menu of hosts: their entries, numbered from 0, one after another.
pub open spec fn menu_text(names: Seq<Seq<char>>) -> Seq<char>
    decreases names.len(),
{
    if names.len() == 0 {
        Seq::empty()
    } else {
        menu_text(names.drop_last()) + menu_entry((names.len() - 1) as nat, names.last())
    }
}

/// The bytes of a text of ASCII characters.
pub open spec fn ascii_bytes(text: Seq<char>) -> Seq<u8> {
    text.map_values(|c: char| c as u8)
}

/// Appends `c` to `s` (std's `String::push`).
#[verifier::external_body]
fn push_char(s: &mut String, c: char)
    ensures
        final(s)@ == old(s)@.push(c),
{
    s.push(c);
}

/// Appends the decimal representation of `n` to `s`.
fn push_decimal(s: &mut String, n: usize)
    ensures
        final(s)@ == old(s)@ + decimal(n as nat),
    decreases n,
{
    if n >= 10 {
        push_decimal(s, n / 10);
    }
    let d: u8 = (n % 10) as u8;
    let c: char = (DIGIT_ZERO + d) as char;
    push_char(s, c);
    assert(s@ =~= old(s)@ + decimal(n as nat));
}

/// The menu of hosts shown to the user: for each host in order, its index,
/// ` - ` and its name, with nothing between entries.
pub fn host_menu(names: &[String]) -> (menu: String)
    ensures
        menu@ == menu_text(names@.map_values(|s: String| s@)),
{
    let ghost views = names@.map_values(|s: String| s@);
    let mut menu = String::new();
    let mut i: usize = 0;
    while i < names.len()
        invariant
            i <= names@.len(),
            views == names@.map_values(|s: String| s@),
            menu@ == menu_text(views.subrange(0, i as int)),
        decreases names@.len() - i,
    {
        push_decimal(&mut menu, i);
        push_char(&mut menu, ' ');
        push_char(&mut menu, '-');
        push_char(&mut menu, ' ');
        menu.append(names[i].as_str());
        assert(views.subrange(0, i + 1).drop_last() =~= views.subrange(0, i as int));
        assert(menu@ =~= menu_text(views.subrange(0, i + 1)));
        i = i + 1;
    }
    assert(views.subrange(0, names@.len() as int) =~= views);
    menu
}


/// A prefix of a digit sequence denotes at most the whole sequence.
proof fn lemma_digits_value_prefix(s: Seq<u8>, k: int)
    requires
        all_digits(s),
        0 <= k <= s.len(),
    ensures
        digits_value(s.subrange(0, k)) <= digits_value(s),
    decreases s.len(),
{
    if k < s.len() {
        let p = s.drop_last();
        assert(all_digits(p)) by {
            assert forall|i: int| 0 <= i < p.len() implies #[trigger] is_digit(p[i]) by {
                assert(is_digit(s[i]));
            }
        }
        lemma_digits_value_prefix(p, k);
        assert(p.subrange(0, k) =~= s.subrange(0, k));
    } else {
        assert(s.subrange(0, k) =~= s);
    }
}

/// Reads `text` as an unsigned decimal index (see `parsed_index`).
pub fn parse_index(text: &[u8]) -> (index: Option<usize>)
    ensures
        index == parsed_index(text@),
{
    let len = text.len();
    let start: usize = if len > 0 && text[0] == PLUS_SIGN {
        1
    } else {
        0
    };
    let ghost d = unsigned_digits(text@);
    assert(d =~= text@.subrange(start as int, len as int));
    if start >= len {
        return None;
    }
    let mut value: usize = 0;
    let mut i: usize = start;
    while i < len
        invariant
            start <= i <= len,
            len == text@.len(),
            start < len,
            d == unsigned_digits(text@),
            d == text@.subrange(start as int, len as int),
            all_digits(text@.subrange(start as int, i as int)),
            value == digits_value(text@.subrange(start as int, i as int)),
        decreases len - i,
    {
        let b = text[i];
        if b < DIGIT_ZERO || b > DIGIT_ZERO + 9 {
            assert(!is_digit(d[i - start]));
            return None;
        }
        let ghost next = text@.subrange(start as int, i + 1);
        assert(next.drop_last() =~= text@.subrange(start as int, i as int));
        assert(all_digits(next)) by {
            assert forall|k: int| 0 <= k < next.len() implies #[trigger] is_digit(next[k]) by {
                if k < next.len() - 1 {
                    assert(next[k] == text@.subrange(start as int, i as int)[k]);
                }
            }
        }
        let digit: usize = (b - DIGIT_ZERO) as usize;
        let scaled = value.checked_mul(10);
        let sum = match scaled {
            Some(v) => v.checked_add(digit),
            None => None,
        };
        match sum {
            Some(v) => {
                value = v;
            },
            None => {
                proof {
                    if all_digits(d) {
                        assert(next =~= d.subrange(0, i + 1 - start));
                        lemma_digits_value_prefix(d, i + 1 - start);
                    }
                }
                return None;
            },
        }
        i = i + 1;
    }
    assert(text@.subrange(start as int, i as int) =~= d);
    Some(value)
}

/// The host that `answer` selects among `host_count` hosts (see
/// `selected_host`); `None` sends the caller to the default host.
pub fn select_host(answer: &[u8], host_count: usize) -> (host: Option<usize>)
    ensures
        host == selected_host(answer@, host_count as nat),
{
    match parse_index(answer) {
        Some(i) => if i < host_count {
            Some(i)
        } else {
            None
        },
        None => None,
    }
}

proof fn lemma_decimal_digits(n: nat)
    ensures
        ascii_bytes(decimal(n)).len() > 0,
        all_digits(ascii_bytes(decimal(n))),
        ascii_bytes(decimal(n))[0] != PLUS_SIGN,
        digits_value(ascii_bytes(decimal(n))) == n,
    decreases n,
{
    let b = ascii_bytes(decimal(n));
    if n < 10 {
        assert(b.drop_last() =~= Seq::<u8>::empty());
        assert(b[0] == (n + 48) as char as u8);
        assert((n + 48) as char as u8 == n + 48);
        assert(digits_value(b.drop_last()) == 0);
        assert(b.last() == b[0]);
        assert(is_digit(b[0]));
    } else {
        lemma_decimal_digits(n / 10);
        let p = ascii_bytes(decimal(n / 10));
        assert(b.drop_last() =~= p);
        assert(b.last() == (n % 10 + 48) as char as u8);
        assert((n % 10 + 48) as char as u8 == n % 10 + 48);
        assert(digits_value(b) == digits_value(p) * 10 + (b.last() - DIGIT_ZERO) as nat);
        assert forall|i: int| 0 <= i < b.len() implies #[trigger] is_digit(b[i]) by {
            if i < b.len() - 1 {
                assert(b[i] == p[i]);
            }
        }
        assert(b[0] == p[0]);
    }
}

/// How an answer reads, byte by byte: a single ASCII digit reads as its
/// value; appending an ASCII digit to an answer that reads as `v`
/// multiplies by ten and adds the digit, as long as the result fits; a
/// leading `+` before digits is ignored; an answer with any byte other than
/// an ASCII digit (past an optional leading `+`), and an empty one, reads
/// as no index.
pub proof fn lemma_answer_reads_in_decimal(s: Seq<u8>, b: u8)
    ensures
        48 <= b <= 57 ==> parsed_index(seq![b]) == Some((b - 48) as usize),
        ({
            match parsed_index(s) {
                Some(v) => 48 <= b <= 57 && v * 10 + (b - 48) <= usize::MAX ==> parsed_index(
                    s.push(b),
                ) == Some((v * 10 + (b - 48)) as usize),
                None => true,
            }
        }),
        s.len() > 0 && s[0] != 43 ==> parsed_index(seq![43u8] + s) == parsed_index(s),
        s.len() == 0 ==> parsed_index(s) is None,
        (exists|j: int| 0 <= j < s.len() && !(48 <= #[trigger] s[j] <= 57) && !(j == 0 && s[j] == 43)) ==> parsed_index(s) is None,
{
    if 48 <= b <= 57 {
        assert(seq![b].drop_last() =~= Seq::<u8>::empty());
        assert(unsigned_digits(seq![b]) =~= seq![b]);
        assert(all_digits(seq![b]));
        assert(digits_value(seq![b]) == digits_value(Seq::<u8>::empty()) * 10 + (b - DIGIT_ZERO) as nat);
        assert(digits_value(seq![b]) == b - 48);
    }
    if let Some(v) = parsed_index(s) {
        if 48 <= b <= 57 && v * 10 + (b - 48) <= usize::MAX {
            let d = unsigned_digits(s);
            let e = unsigned_digits(s.push(b));
            assert(e =~= d.push(b));
            assert(e.drop_last() =~= d);
            assert(all_digits(e)) by {
                assert forall|k: int| 0 <= k < e.len() implies #[trigger] is_digit(e[k]) by {
                    if k < e.len() - 1 {
                        assert(e[k] == d[k]);
                    }
                }
            }
        }
    }
    if s.len() > 0 && s[0] != 43 {
        assert((seq![43u8] + s).drop_first() =~= s);
    }
    if exists|j: int| 0 <= j < s.len() && !(48 <= #[trigger] s[j] <= 57) && !(j == 0 && s[j] == 43) {
        let j = choose|j: int| 0 <= j < s.len() && !(48 <= #[trigger] s[j] <= 57) && !(j == 0 && s[j] == 43);
        let d = unsigned_digits(s);
        if s.len() > 0 && s[0] == 43 {
            assert(j > 0);
            assert(d[j - 1] == s[j]);
            assert(!is_digit(d[j - 1]));
        } else {
            assert(d[j] == s[j]);
            assert(!is_digit(d[j]));
        }
    }
}

/// An answer selects host `i` exactly when it reads as the index `i` and
/// `i` is one of the hosts; an answer that reads as no index, or as an
/// index past the last host, selects none (the default host is used).
pub proof fn lemma_selection_is_index_in_range(answer: Seq<u8>, host_count: nat)
    ensures
        forall|i: usize|
            #![auto]
            selected_host(answer, host_count) == Some(i) <==> (parsed_index(answer) == Some(i)
                && i < host_count),
        (selected_host(answer, host_count) is None) <==> match parsed_index(answer) {
            Some(i) => i >= host_count,
            None => true,
        },
{
}

/// Adding a host to the list appends its entry to the menu: its number,
/// ` - `, and its name unchanged.
pub proof fn lemma_menu_appends_entry(names: Seq<Seq<char>>)
    requires
        names.len() > 0,
    ensures
        menu_text(names) == menu_text(names.drop_last()) + decimal((names.len() - 1) as nat)
            + seq![' ', '-', ' '] + names.last(),
{
    assert(menu_text(names) =~= menu_text(names.drop_last()) + decimal((names.len() - 1) as nat)
        + seq![' ', '-', ' '] + names.last());
}

/// The menu of a first part of the list begins the menu of the whole list.
proof fn lemma_menu_prefix(names: Seq<Seq<char>>, k: int)
    requires
        0 <= k <= names.len(),
    ensures
        menu_text(names.subrange(0, k)).len() <= menu_text(names).len(),
        menu_text(names).subrange(0, menu_text(names.subrange(0, k)).len() as int) == menu_text(
            names.subrange(0, k),
        ),
    decreases names.len(),
{
    if k == names.len() {
        assert(names.subrange(0, k) =~= names);
        assert(menu_text(names).subrange(0, menu_text(names).len() as int) =~= menu_text(names));
    } else {
        let p = names.drop_last();
        lemma_menu_prefix(p, k);
        assert(p.subrange(0, k) =~= names.subrange(0, k));
        lemma_menu_appends_entry(names);
        let a = menu_text(p);
        let b = menu_text(names.subrange(0, k));
        assert(menu_text(names).subrange(0, b.len() as int) =~= a.subrange(0, b.len() as int));
    }
}

/// The menu shows every host's name in full: for each host there is a
/// place in the menu text that holds exactly its name, right after its
/// number and ` - `, and the entries come in the order of the hosts.
pub proof fn lemma_menu_holds_full_names(names: Seq<Seq<char>>)
    ensures
        forall|i: int|
            #![trigger names[i]]
            0 <= i < names.len() ==> {
                let upto = menu_text(names.subrange(0, i + 1));
                let start = upto.len() - names[i].len();
                &&& 0 <= start
                &&& upto.len() <= menu_text(names).len()
                &&& menu_text(names).subrange(start, upto.len() as int) == names[i]
                &&& menu_text(names).subrange(0, upto.len() as int) == upto
            },
{
    assert forall|i: int| #![trigger names[i]] 0 <= i < names.len() implies {
        let upto = menu_text(names.subrange(0, i + 1));
        let start = upto.len() - names[i].len();
        &&& 0 <= start
        &&& upto.len() <= menu_text(names).len()
        &&& menu_text(names).subrange(start, upto.len() as int) == names[i]
        &&& menu_text(names).subrange(0, upto.len() as int) == upto
    } by {
        let sub = names.subrange(0, i + 1);
        let upto = menu_text(sub);
        lemma_menu_appends_entry(sub);
        assert(sub.last() == names[i]);
        lemma_menu_prefix(names, i + 1);
        let start = upto.len() - names[i].len();
        assert(upto.subrange(start, upto.len() as int) =~= names[i]);
        assert(menu_text(names).subrange(start, upto.len() as int) =~= upto.subrange(
            start,
            upto.len() as int,
        ));
    }
}

/// The number that the menu shows for a host, typed back as the answer,
/// selects that host; and any host that an answer selects is one of the
/// hosts.
pub proof fn lemma_menu_number_selects_host(n: usize, host_count: usize, answer: Seq<u8>)
    ensures
        parsed_index(ascii_bytes(decimal(n as nat))) == Some(n),
        n < host_count ==> selected_host(ascii_bytes(decimal(n as nat)), host_count as nat) == Some(n),
        selected_host(answer, host_count as nat) matches Some(i) ==> i < host_count,
{
    lemma_decimal_digits(n as nat);
}


/// What can go wrong while setting up the audio analysis.
#[derive(Debug, Clone)]
pub enum Error {
    /// Reading the user's answer failed, with the reason.
    IO(String),
}

impl Error {
    /// The text of the error: `IO failed: ` followed by the reason.
    pub fn message(&self) -> (text: String)
        ensures
            text@ == match self {
                Error::IO(reason) => "IO failed: "@ + reason@,
            },
    {
        match self {
            Error::IO(reason) => String::from_str("IO failed: ").concat(reason.as_str()),
        }
    }
}

} // verus!
