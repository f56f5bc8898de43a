//! Text helpers for diagnostics: decimal rendering of integers.

use vstd::prelude::*;
use vstd::string::*;
use vstd::utf8::encode_utf8;

verus! {

/// The character that stands for a single decimal digit.
pub open spec fn digit_char(d: nat) -> char {
    if d == 0 {
        '0'
    } else if d == 1 {
        '1'
    } else if d == 2 {
        '2'
    } else if d == 3 {
        '3'
    } else if d == 4 {
        '4'
    } else if d == 5 {
        '5'
    } else if d == 6 {
        '6'
    } else if d == 7 {
        '7'
    } else if d == 8 {
        '8'
    } else {
        '9'
    }
}

/// The decimal digits of `n`, most significant first, without leading zeros
/// (the number zero is the single digit `0`).
pub open spec fn decimal_digits(n: nat) -> Seq<char>
    decreases n,
{
    if n < 10 {
        seq![digit_char(n)]
    } else {
        decimal_digits(n / 10).push(digit_char(n % 10))
    }
}

/// The decimal rendering of a signed number: a minus sign for negative
/// values, then the digits of the magnitude.
pub open spec fn signed_decimal_digits(n: int) -> Seq<char> {
    if n < 0 {
        seq!['-'] + decimal_digits((-n) as nat)
    } else {
        decimal_digits(n as nat)
    }
}

fn digit_str(d: u64) -> (s: &'static str)
    requires
        d < 10,
    ensures
        s@ == seq![digit_char(d as nat)],
{
    proof {
        reveal_strlit("0");
        reveal_strlit("1");
        reveal_strlit("2");
        reveal_strlit("3");
        reveal_strlit("4");
        reveal_strlit("5");
        reveal_strlit("6");
        reveal_strlit("7");
        reveal_strlit("8");
        reveal_strlit("9");
    }
    let s = if d == 0 {
        "0"
    } else if d == 1 {
        "1"
    } else if d == 2 {
        "2"
    } else if d == 3 {
        "3"
    } else if d == 4 {
        "4"
    } else if d == 5 {
        "5"
    } else if d == 6 {
        "6"
    } else if d == 7 {
        "7"
    } else if d == 8 {
        "8"
    } else {
        "9"
    };
    assert(s@ =~= seq![digit_char(d as nat)]);
    s
}

/// Renders an unsigned number in decimal.
pub fn decimal(n: u64) -> (s: String)
    ensures
        s@ == decimal_digits(n as nat),
    decreases n,
{
    if n < 10 {
        String::from_str(digit_str(n))
    } else {
        let mut s = decimal(n / 10);
        s.append(digit_str(n % 10));
        assert(s@ =~= decimal_digits((n / 10) as nat).push(digit_char((n % 10) as nat)));
        s
    }
}

/// Renders a signed number in decimal.
pub fn signed_decimal(n: i64) -> (s: String)
    ensures
        s@ == signed_decimal_digits(n as int),
{
    if n < 0 {
        let magnitude: u64 = if n == i64::MIN {
            9223372036854775808u64
        } else {
            (-n) as u64
        };
        let mut s = String::from_str("-");
        let digits = decimal(magnitude);
        s.append(digits.as_str());
        proof {
            reveal_strlit("-");
            assert(s@ =~= seq!['-'] + decimal_digits((-(n as int)) as nat));
        }
        s
    } else {
        decimal(n as u64)
    }
}

/// Joins two pieces of text.
pub fn join(a: &str, b: &str) -> (s: String)
    ensures
        s@ == a@ + b@,
{
    let mut s = String::from_str(a);
    s.append(b);
    s
}

/// Whether the text holds a NUL character.
pub open spec fn has_nul(text: Seq<char>) -> bool {
    text.contains('\0')
}

/// Whether `place` is where the first NUL character of the text stands.
pub open spec fn is_first_nul(text: Seq<char>, place: int) -> bool {
    &&& 0 <= place < text.len()
    &&& text[place] == '\0'
    &&& forall|before: int| 0 <= before < place ==> text[before] != '\0'
}

/// The place of the first NUL character of a text that holds one.
pub open spec fn first_nul(text: Seq<char>) -> int {
    choose|place: int| is_first_nul(text, place)
}

/// The number of bytes that stand before the first NUL character in the
/// UTF-8 form of a text that holds one.
pub open spec fn nul_position(text: Seq<char>) -> usize {
    encode_utf8(text.take(first_nul(text))).len() as usize
}

/// The first NUL character stands where `is_first_nul` says, and nowhere
/// else.
pub proof fn lemma_first_nul_is_unique(text: Seq<char>, place: int)
    requires
        is_first_nul(text, place),
    ensures
        first_nul(text) == place,
        has_nul(text),
{
    let chosen = first_nul(text);
    assert(is_first_nul(text, chosen));
    if chosen < place {
        assert(text[chosen] != '\0');
    }
    if place < chosen {
        assert(text[place] != '\0');
    }
}

/// A text made of two pieces holds a NUL character exactly when one of the
/// pieces does.
pub proof fn lemma_has_nul_of_pieces(a: Seq<char>, b: Seq<char>)
    ensures
        has_nul(a + b) <==> has_nul(a) || has_nul(b),
{
    if has_nul(a) {
        let i = choose|i: int| 0 <= i < a.len() && a[i] == '\0';
        assert((a + b)[i] == '\0');
    }
    if has_nul(b) {
        let i = choose|i: int| 0 <= i < b.len() && b[i] == '\0';
        assert((a + b)[a.len() + i] == '\0');
    }
    if has_nul(a + b) {
        let i = choose|i: int| 0 <= i < (a + b).len() && (a + b)[i] == '\0';
        if i < a.len() {
            assert(a[i] == '\0');
        } else {
            assert(b[i - a.len()] == '\0');
        }
    }
}

/// Where the first piece of a text holds a NUL character, what follows the
/// piece does not move the first NUL character.
pub proof fn lemma_nul_position_of_start(a: Seq<char>, b: Seq<char>)
    requires
        has_nul(a),
    ensures
        first_nul(a + b) == first_nul(a),
        nul_position(a + b) == nul_position(a),
{
    let any = choose|i: int| 0 <= i < a.len() && a[i] == '\0';
    lemma_some_nul_is_first(a, any);
    let place = first_nul(a);
    assert(is_first_nul(a, place));
    assert(is_first_nul(a + b, place)) by {
        assert((a + b)[place] == a[place]);
        assert forall|before: int| 0 <= before < place implies (a + b)[before] != '\0' by {
            assert((a + b)[before] == a[before]);
        }
    }
    lemma_first_nul_is_unique(a + b, place);
    assert((a + b).take(place) =~= a.take(place));
}

/// A text that holds a NUL character has a first one.
pub proof fn lemma_some_nul_is_first(text: Seq<char>, place: int)
    requires
        0 <= place < text.len(),
        text[place] == '\0',
    ensures
        is_first_nul(text, first_nul(text)),
        first_nul(text) <= place,
    decreases place,
{
    if forall|before: int| 0 <= before < place ==> text[before] != '\0' {
        assert(is_first_nul(text, place));
        lemma_first_nul_is_unique(text, place);
    } else {
        let before = choose|before: int| 0 <= before < place && text[before] == '\0';
        lemma_some_nul_is_first(text, before);
    }
}

/// The decimal digits of a number hold no NUL character.
pub proof fn lemma_digits_have_no_nul(n: nat)
    ensures
        !has_nul(decimal_digits(n)),
    decreases n,
{
    if n < 10 {
        let digits = decimal_digits(n);
        assert forall|i: int| 0 <= i < digits.len() implies #[trigger] digits[i] != '\0' by {}
    } else {
        lemma_digits_have_no_nul(n / 10);
        let last = seq![digit_char(n % 10)];
        lemma_has_nul_of_pieces(decimal_digits(n / 10), last);
        assert(decimal_digits(n / 10).push(digit_char(n % 10)) =~= decimal_digits(n / 10) + last);
        assert forall|i: int| 0 <= i < last.len() implies #[trigger] last[i] != '\0' by {}
    }
}

/// Looks for the first NUL character of a text. Where there is one, gives
/// the number of bytes that stand before it in the UTF-8 form of the text.
pub fn find_nul(text: &str) -> (position: Option<usize>)
    ensures
        match position {
            Some(bytes) => has_nul(text@) && bytes == nul_position(text@),
            None => !has_nul(text@),
        },
{
    let length = text.unicode_len();
    let mut i: usize = 0;
    while i < length
        invariant
            i <= length,
            length == text@.len(),
            forall|before: int| 0 <= before < i ==> text@[before] != '\0',
        decreases length - i,
    {
        if text.get_char(i) == '\0' {
            let head = text.substring_char(0, i);
            proof {
                assert(is_first_nul(text@, i as int));
                lemma_first_nul_is_unique(text@, i as int);
                assert(head@ =~= text@.take(i as int));
            }
            return Some(head.len());
        }
        i += 1;
    }
    None
}

proof fn probe_literal()
{
    reveal_strlit("GraphicsEngine::image_available_semaphore");
    assert(!has_nul("GraphicsEngine::image_available_semaphore"@));
}

} // verus!
