//! The grammar of names and categories, and what a name costs.
use vstd::prelude::*;
use vstd::string::*;

use crate::constants::{MAX_NAME_LEN, TLD_AGENT};
use crate::error::{Error, NaimError};
use crate::state::TokenConfig;

verus! {

/// Lowercase letters, digits, hyphen and dot.
pub open spec fn is_name_char(c: char) -> bool {
    'a' <= c <= 'z' || '0' <= c <= '9' || c == '-' || c == '.'
}

/// A name: 1 to 63 characters of the alphabet above, no dot or hyphen at
/// either end, no two dots in a row.
pub open spec fn is_valid_name(name: Seq<char>) -> bool {
    &&& 1 <= name.len() <= MAX_NAME_LEN
    &&& forall|i: int| 0 <= i < name.len() ==> is_name_char(#[trigger] name[i])
    &&& name[0] != '.' && name[0] != '-'
    &&& name.last() != '.' && name.last() != '-'
    &&& forall|i: int|
        0 <= i < name.len() - 1 ==> !(#[trigger] name[i] == '.' && name[i + 1] == '.')
}

/// The characters of the top-level domain.
pub open spec fn tld_chars() -> Seq<char> {
    Seq::new(TLD_AGENT@.len(), |i: int| TLD_AGENT@[i] as char)
}

/// A category: a name that ends in the top-level domain and is longer than it.
pub open spec fn is_valid_category(category: Seq<char>) -> bool {
    &&& is_valid_name(category)
    &&& category.len() > tld_chars().len()
    &&& category.skip(category.len() - tld_chars().len()) == tld_chars()
}

/// Names of 1 to 4 characters never expire.
pub open spec fn permanent_length(char_len: nat) -> bool {
    char_len <= 4
}

/// The fee tier that a name's length falls in.
pub open spec fn tier_fee(tc: TokenConfig, char_len: nat) -> u64 {
    if char_len <= 4 {
        tc.fee_1_4
    } else if char_len <= 9 {
        tc.fee_5_9
    } else {
        tc.fee_10_plus
    }
}

/// Whether `name` is one label, a dot, and `parent`: what follows its first dot
/// is `parent`.
pub open spec fn directly_under(name: Seq<char>, parent: Seq<char>) -> bool {
    exists|i: int|
        {
            &&& 0 <= i < name.len()
            &&& #[trigger] name[i] == '.'
            &&& forall|j: int| 0 <= j < i ==> name[j] != '.'
            &&& name.skip(i + 1) == parent
        }
}

/// Whether a byte is the ASCII code of a name character.
fn is_name_byte(b: u8) -> (ok: bool)
    ensures
        ok == is_name_char(b as char),
{
    (97 <= b && b <= 122) || (48 <= b && b <= 57) || b == 45 || b == 46
}

/// Checks a name's characters and length; returns its length in characters.
pub fn validate_name(name: &str) -> (res: Result<usize, Error>)
    ensures
        match res {
            Ok(len) => is_valid_name(name@) && len == name@.len(),
            Err(e) => !is_valid_name(name@) && e == Error::Naim(NaimError::InvalidName),
        },
{
    broadcast use is_ascii_spec_bytes;

    if !name.is_ascii() {
        return Err(Error::Naim(NaimError::InvalidName));
    }
    let bytes = name.as_bytes();
    let len: usize = bytes.len();
    assert(forall|i: int| 0 <= i < len ==> bytes@[i] as char == #[trigger] name@[i]);
    if len < 1 || len > MAX_NAME_LEN {
        return Err(Error::Naim(NaimError::InvalidName));
    }
    if bytes[0] == 46 || bytes[0] == 45 || bytes[len - 1] == 46 || bytes[len - 1] == 45 {
        return Err(Error::Naim(NaimError::InvalidName));
    }
    let mut i: usize = 0;
    while i < len
        invariant
            i <= len,
            len == bytes@.len() == name@.len(),
            forall|j: int| 0 <= j < len ==> bytes@[j] as char == #[trigger] name@[j],
            forall|j: int| 0 <= j < i ==> is_name_char(#[trigger] name@[j]),
            forall|j: int|
                0 <= j < i && j < len - 1 ==> !(#[trigger] name@[j] == '.' && name@[j + 1] == '.'),
        decreases len - i,
    {
        let b: u8 = bytes[i];
        assert(b as char == name@[i as int]);
        if !is_name_byte(b) {
            return Err(Error::Naim(NaimError::InvalidName));
        }
        if i + 1 < len && b == 46 && bytes[i + 1] == 46 {
            assert(name@[i + 1] == '.');
            return Err(Error::Naim(NaimError::InvalidName));
        }
        i += 1;
    }
    Ok(len)
}

/// Whether names of this length never expire.
pub fn is_permanent(char_len: usize) -> (permanent: bool)
    ensures
        permanent == permanent_length(char_len as nat),
{
    char_len <= 4
}

/// Checks that a category is a valid name that ends in the top-level domain;
/// returns its length in characters.
pub fn validate_category(category: &str) -> (res: Result<usize, Error>)
    ensures
        match res {
            Ok(len) => is_valid_category(category@) && len == category@.len(),
            Err(e) => {
                &&& !is_valid_category(category@)
                &&& e == Error::Naim(
                    if is_valid_name(category@) {
                        NaimError::InvalidCategory
                    } else {
                        NaimError::InvalidName
                    },
                )
            },
        },
{
    broadcast use is_ascii_spec_bytes;

    let len: usize = match validate_name(category) {
        Ok(len) => len,
        Err(e) => return Err(e),
    };
    proof {
        lemma_valid_name_is_ascii(category@);
        assert(is_ascii(category));
    }
    let bytes = category.as_bytes();
    let tld = TLD_AGENT;
    assert(forall|i: int| 0 <= i < len ==> bytes@[i] as char == #[trigger] category@[i]);
    if len <= 6 {
        return Err(Error::Naim(NaimError::InvalidCategory));
    }
    let ghost tail = category@.skip(len - 6);
    let mut i: usize = 0;
    while i < 6
        invariant
            i <= 6 < len,
            is_valid_name(category@),
            len == bytes@.len() == category@.len(),
            tld@ == TLD_AGENT@,
            tail == category@.skip(len - 6),
            forall|j: int| 0 <= j < len ==> bytes@[j] as char == #[trigger] category@[j],
            forall|j: int| 0 <= j < i ==> #[trigger] tail[j] == tld_chars()[j],
        decreases 6 - i,
    {
        assert(tail[i as int] == category@[len - 6 + i]);
        if bytes[len - 6 + i] != tld[i] {
            assert(tail[i as int] != tld_chars()[i as int]);
            return Err(Error::Naim(NaimError::InvalidCategory));
        }
        i += 1;
    }
    assert(tail =~= tld_chars());
    Ok(len)
}

/// The fee of a name of this length.
pub fn fee_for(tc: &TokenConfig, char_len: usize) -> (fee: u64)
    ensures
        fee == tier_fee(*tc, char_len as nat),
{
    if char_len <= 4 {
        tc.fee_1_4
    } else if char_len <= 9 {
        tc.fee_5_9
    } else {
        tc.fee_10_plus
    }
}

/// Whether what follows the first dot of `name` is `parent`.
pub fn is_directly_under(name: &str, parent: &str) -> (under: bool)
    requires
        is_valid_name(name@),
    ensures
        under == directly_under(name@, parent@),
{
    broadcast use is_ascii_spec_bytes;

    proof {
        lemma_valid_name_is_ascii(name@);
        assert(is_ascii(name));
    }
    let n = name.as_bytes();
    assert(forall|i: int| 0 <= i < n@.len() ==> n@[i] as char == #[trigger] name@[i]);
    let len: usize = n.len();
    let mut dot: usize = 0;
    while dot < len && n[dot] != 46
        invariant
            dot <= len,
            len == n@.len() == name@.len(),
            forall|j: int| 0 <= j < len ==> n@[j] as char == #[trigger] name@[j],
            forall|j: int| 0 <= j < dot ==> #[trigger] name@[j] != '.',
        decreases len - dot,
    {
        assert(name@[dot as int] != '.');
        dot += 1;
    }
    if dot == len {
        return false;
    }
    assert(name@[dot as int] == '.');
    let ghost rest = name@.skip(dot + 1);
    assert(directly_under(name@, parent@) <==> rest == parent@) by {
        if directly_under(name@, parent@) {
            let i = choose|i: int|
                {
                    &&& 0 <= i < name@.len()
                    &&& #[trigger] name@[i] == '.'
                    &&& forall|j: int| 0 <= j < i ==> name@[j] != '.'
                    &&& name@.skip(i + 1) == parent@
                };
            assert(i == dot);
        }
    }
    if !parent.is_ascii() {
        assert(rest != parent@) by {
            assert(vstd::utf8::is_ascii_chars(rest));
        }
        return false;
    }
    let p = parent.as_bytes();
    assert(forall|i: int| 0 <= i < p@.len() ==> p@[i] as char == #[trigger] parent@[i]);
    if p.len() != len - dot - 1 {
        return false;
    }
    let mut k: usize = 0;
    while k < p.len()
        invariant
            k <= p@.len(),
            dot < len,
            p@.len() == len - dot - 1,
            p@.len() == parent@.len(),
            len == n@.len() == name@.len(),
            rest == name@.skip(dot + 1),
            forall|j: int| 0 <= j < len ==> n@[j] as char == #[trigger] name@[j],
            forall|j: int| 0 <= j < p@.len() ==> p@[j] as char == #[trigger] parent@[j],
            forall|j: int| 0 <= j < k ==> #[trigger] rest[j] == parent@[j],
        decreases p@.len() - k,
    {
        assert(rest[k as int] == name@[dot + 1 + k]);
        if p[k] != n[dot + 1 + k] {
            assert(rest[k as int] != parent@[k as int]);
            return false;
        }
        k += 1;
    }
    assert(rest =~= parent@);
    true
}

/// Every character of a valid name is ASCII.
proof fn lemma_valid_name_is_ascii(name: Seq<char>)
    requires
        is_valid_name(name),
    ensures
        vstd::utf8::is_ascii_chars(name),
{
    assert forall|i| 0 <= i < name.len() implies '\0' <= #[trigger] name[i] <= '\u{7f}' by {
        assert(is_name_char(name[i]));
    }
}

/// A name directly under a parent is a label without dots, a dot, and the
/// parent; a valid name gives the label at least one character.
pub proof fn law_directly_under_is_label_dot_parent(name: Seq<char>, parent: Seq<char>)
    requires
        is_valid_name(name),
    ensures
        directly_under(name, parent) <==> exists|label: Seq<char>|
            {
                &&& label.len() > 0
                &&& !label.contains('.')
                &&& name == #[trigger] (label + seq!['.'] + parent)
            },
{
    if directly_under(name, parent) {
        let i = choose|i: int|
            {
                &&& 0 <= i < name.len()
                &&& #[trigger] name[i] == '.'
                &&& forall|j: int| 0 <= j < i ==> name[j] != '.'
                &&& name.skip(i + 1) == parent
            };
        let label = name.take(i);
        assert(i != 0);
        assert(name =~= label + seq!['.'] + parent);
    }
    if exists|label: Seq<char>|
        {
            &&& label.len() > 0
            &&& !label.contains('.')
            &&& name == #[trigger] (label + seq!['.'] + parent)
        } {
        let label = choose|label: Seq<char>|
            {
                &&& label.len() > 0
                &&& !label.contains('.')
                &&& name == #[trigger] (label + seq!['.'] + parent)
            };
        let i = label.len() as int;
        assert(name[i] == '.');
        assert forall|j: int| 0 <= j < i implies name[j] != '.' by {
            assert(name[j] == label[j]);
        }
        assert(name.skip(i + 1) =~= parent);
    }
}

/// A name has at most one parent.
pub proof fn law_parent_is_unique(name: Seq<char>, a: Seq<char>, b: Seq<char>)
    requires
        directly_under(name, a),
        directly_under(name, b),
    ensures
        a == b,
{
}

/// A category is a valid name of at least one character before the top-level
/// domain, so it is never permanent.
pub proof fn law_categories_are_names(category: Seq<char>)
    requires
        is_valid_category(category),
    ensures
        is_valid_name(category),
        category == category.take(category.len() - tld_chars().len()) + tld_chars(),
        category.len() > tld_chars().len(),
        !permanent_length(category.len()),
{
    assert(category =~= category.take(category.len() - tld_chars().len()) + category.skip(
        category.len() - tld_chars().len(),
    ));
}

} // verus!
