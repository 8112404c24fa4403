//! What counts as a name, a category and a name beneath another.
use vstd::prelude::*;

use crate::names::{
    directly_under, is_name_char, is_valid_category, is_valid_name,
    law_directly_under_is_label_dot_parent, law_parent_is_unique, permanent_length, tld_chars,
};

verus! {

/// Whether a code point is that of a lowercase letter, a digit, a hyphen or a dot.
pub open spec fn is_name_code(code: int) -> bool {
    97 <= code <= 122 || 48 <= code <= 57 || code == 45 || code == 46
}

/// A text of 1 to 63 lowercase letters, digits, hyphens and dots that neither starts
/// nor ends with a hyphen or a dot, and in which no two dots meet.
pub open spec fn spells_a_name(text: Seq<char>) -> bool {
    &&& 0 < text.len() < 64
    &&& forall|i: int| 0 <= i < text.len() ==> is_name_code(#[trigger] text[i] as int)
    &&& !(text[0] == '-') && !(text[0] == '.')
    &&& !(text[text.len() - 1] == '-') && !(text[text.len() - 1] == '.')
    &&& forall|i: int, j: int|
        #![trigger text[i], text[j]]
        0 <= i && j == i + 1 && j < text.len() && text[i] == '.' ==> text[j] != '.'
}

/// The names are exactly the texts that spell one.
pub proof fn law_name_grammar(name: Seq<char>)
    ensures
        is_valid_name(name) <==> spells_a_name(name),
{
    if is_valid_name(name) {
        assert forall|i: int| 0 <= i < name.len() implies is_name_code(
            #[trigger] name[i] as int,
        ) by {
            assert(is_name_char(name[i]));
        }
    }
    if spells_a_name(name) {
        assert forall|i: int| 0 <= i < name.len() implies is_name_char(#[trigger] name[i]) by {
            assert(is_name_code(name[i] as int));
        }
        assert forall|i: int| 0 <= i < name.len() - 1 implies !(#[trigger] name[i] == '.' && name[i
            + 1] == '.') by {
            let j = i + 1;
            assert(name[i] == '.' ==> name[j] != '.');
        }
        assert(name.last() == name[name.len() - 1]);
    }
}

/// A category is a name that ends in `.agent` and has something before it.
pub proof fn law_category_grammar(category: Seq<char>)
    ensures
        is_valid_category(category) <==> {
            let n = category.len() as int;
            &&& is_valid_name(category)
            &&& n > 6
            &&& category[n - 6] == '.' && category[n - 5] == 'a' && category[n - 4] == 'g'
            &&& category[n - 3] == 'e' && category[n - 2] == 'n' && category[n - 1] == 't'
        },
{
    let tld = seq!['.', 'a', 'g', 'e', 'n', 't'];
    let n = category.len() as int;
    assert(tld_chars() =~= tld);
    if n > 6 {
        let tail = category.skip(n - 6);
        assert(forall|i: int| 0 <= i < 6 ==> #[trigger] tail[i] == category[n - 6 + i]);
        if is_valid_category(category) {
            assert(tail[0] == tld[0] && tail[1] == tld[1] && tail[2] == tld[2]);
            assert(tail[3] == tld[3] && tail[4] == tld[4] && tail[5] == tld[5]);
        }
        if tail[0] == '.' && tail[1] == 'a' && tail[2] == 'g' && tail[3] == 'e' && tail[4] == 'n'
            && tail[5] == 't' {
            assert(tail =~= tld);
        }
    }
}

/// Putting a label and a dot before a valid name puts the new name directly under
/// it, and under nothing else.
pub proof fn law_label_goes_under_its_parent(label: Seq<char>, parent: Seq<char>, other: Seq<char>)
    requires
        label.len() > 0,
        !label.contains('.'),
        is_valid_name(label + seq!['.'] + parent),
    ensures
        directly_under(label + seq!['.'] + parent, other) <==> other == parent,
{
    let name = label + seq!['.'] + parent;
    law_directly_under_is_label_dot_parent(name, parent);
    if directly_under(name, other) {
        law_parent_is_unique(name, parent, other);
    }
}

/// Names of up to 4 characters are permanent, no others.
pub proof fn law_short_names_are_permanent(char_len: nat)
    ensures
        permanent_length(char_len) <==> char_len < 5,
{
}

} // verus!
