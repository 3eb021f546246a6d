//! The transform that replaces the sensitive fields of a record.
use vstd::prelude::*;

verus! {

/// `fake::faker::name::en::Name`: a made-up name of a person. Each call
/// draws anew: a first name and a last name from the crate's lists, none of
/// them empty, with a space between them.
#[verifier::external_body]
fn draw_name() -> (name: String)
    ensures
        is_two_words(name@),
{
    fake::Fake::fake(&fake::faker::name::en::Name())
}

/// `fake::faker::name::en::FirstName`: a made-up first name. Each call
/// draws anew from the crate's list of first names, none of which is empty.
#[verifier::external_body]
fn draw_first_name() -> (name: String)
    ensures
        name@.len() > 0,
{
    fake::Fake::fake(&fake::faker::name::en::FirstName())
}

/// `fake::faker::name::en::LastName`: a made-up last name. Each call draws
/// anew from the crate's list of last names, none of which is empty.
#[verifier::external_body]
fn draw_last_name() -> (name: String)
    ensures
        name@.len() > 0,
{
    fake::Fake::fake(&fake::faker::name::en::LastName())
}

/// `fake::faker::lorem::en::Sentence`: a made-up sentence of one or two
/// words. Each call draws anew: the words, none of them empty, with a
/// space between them and a full stop at the end.
#[verifier::external_body]
fn draw_sentence() -> (sentence: String)
    ensures
        is_sentence(sentence@),
{
    fake::Fake::fake(&fake::faker::lorem::en::Sentence(1..3))
}

/// `fake::faker::internet::en::SafeEmail`: a made-up address at a domain
/// that is reserved for examples. Each call draws anew: a first name in
/// lowercase, and behind it `@example.com`, `@example.net` or
/// `@example.org`.
#[verifier::external_body]
fn draw_email() -> (email: String)
    ensures
        is_safe_email(email@),
{
    fake::Fake::fake(&fake::faker::internet::en::SafeEmail())
}

/// `fake::faker::address::en::StreetName`: a made-up street name. Each
/// call draws anew: a first or last name and a word for the kind of
/// street from the crate's lists, none of them empty, with a space between
/// them.
#[verifier::external_body]
fn draw_street_name() -> (street: String)
    ensures
        is_two_words(street@),
{
    fake::Fake::fake(&fake::faker::address::en::StreetName())
}

/// `fake::faker::address::en::PostCode`: a made-up postal code. Each call
/// draws anew: one of the crate's two patterns, five digits or five digits,
/// a hyphen and four digits, with a digit drawn for each `#`.
#[verifier::external_body]
fn draw_post_code() -> (code: String)
    ensures
        is_post_code(code@),
{
    fake::Fake::fake(&fake::faker::address::en::PostCode())
}

/// `fake::faker::phone_number::en::PhoneNumber`: a made-up phone number.
/// Each call draws anew: one of the crate's sixteen patterns, with a digit
/// drawn for each `#` and a digit other than zero for each `^`.
#[verifier::external_body]
fn draw_phone_number() -> (number: String)
    ensures
        is_phone_number(number@),
{
    fake::Fake::fake(&fake::faker::phone_number::en::PhoneNumber())
}

/// `fake::faker::number::en::Digit`: a made-up digit, as text. Each call
/// draws anew from the crate's list of the ten decimal digits, each a text
/// of one character.
#[verifier::external_body]
fn draw_digit() -> (digit: String)
    ensures
        is_single_digit(digit@),
{
    fake::Fake::fake(&fake::faker::number::en::Digit())
}

/// Whether the text is made of two parts, neither empty, with a space
/// between them.
pub open spec fn is_two_words(text: Seq<char>) -> bool {
    exists|at: int| 0 < at < text.len() - 1 && #[trigger] text[at] == ' '
}

/// Whether the text is a sentence: something that ends with a full stop.
pub open spec fn is_sentence(text: Seq<char>) -> bool {
    text.len() > 1 && text.last() == '.'
}

/// Whether the address is that of some user at the given domain, which
/// begins with the `@`.
pub open spec fn is_user_at(email: Seq<char>, domain: Seq<char>) -> bool {
    domain.is_suffix_of(email) && email.len() > domain.len()
}

/// Whether the address is that of some user at one of the domains that
/// are reserved for examples, so that no mail to it reaches anybody.
pub open spec fn is_safe_email(email: Seq<char>) -> bool {
    ||| is_user_at(email, "@example.com"@)
    ||| is_user_at(email, "@example.net"@)
    ||| is_user_at(email, "@example.org"@)
}

/// Whether the character is a decimal digit.
pub open spec fn is_digit(character: char) -> bool {
    '0' <= character <= '9'
}

/// Whether the text is one decimal digit.
pub open spec fn is_single_digit(text: Seq<char>) -> bool {
    text.len() == 1 && is_digit(text[0])
}

/// Whether the text is made of decimal digits only.
pub open spec fn all_digits(text: Seq<char>) -> bool {
    forall|i: int| 0 <= i < text.len() ==> is_digit(#[trigger] text[i])
}

/// Whether the character may stand where a pattern has the mark: a digit
/// for `#`, a digit other than zero for `^`, and for any other mark the
/// mark itself.
pub open spec fn fills_mark(mark: char, character: char) -> bool {
    if mark == '#' {
        is_digit(character)
    } else if mark == '^' {
        '1' <= character <= '9'
    } else {
        character == mark
    }
}

/// Whether the text fills the pattern, mark by mark.
pub open spec fn fills_pattern(pattern: Seq<char>, text: Seq<char>) -> bool {
    &&& text.len() == pattern.len()
    &&& forall|i: int| 0 <= i < pattern.len() ==> fills_mark(pattern[i], #[trigger] text[i])
}

/// Whether the text is a postal code: five digits, or five digits, a
/// hyphen and four digits.
pub open spec fn is_post_code(text: Seq<char>) -> bool {
    fills_pattern("#####"@, text) || fills_pattern("#####-####"@, text)
}

/// The patterns of phone numbers: an area code, an exchange and a line
/// number, written in one of four ways, each with or without an extension
/// of three to five digits.
pub open spec fn phone_patterns() -> Seq<Seq<char>> {
    seq![
        "(^##) ###-#### x###"@,
        "(^##) ###-#### x####"@,
        "(^##) ###-#### x#####"@,
        "(^##) ###-####"@,
        "1-^##-###-#### x###"@,
        "1-^##-###-#### x####"@,
        "1-^##-###-#### x#####"@,
        "1-^##-###-####"@,
        "^##-###-#### x###"@,
        "^##-###-#### x####"@,
        "^##-###-#### x#####"@,
        "^##-###-####"@,
        "^##.###.#### x###"@,
        "^##.###.#### x####"@,
        "^##.###.#### x#####"@,
        "^##.###.####"@,
    ]
}

/// Whether the text is a phone number: it fills one of the patterns.
pub open spec fn is_phone_number(text: Seq<char>) -> bool {
    exists|which: int|
        0 <= which < phone_patterns().len() && fills_pattern(
            #[trigger] phone_patterns()[which],
            text,
        )
}

/// A full name as it is listed: the last name, a comma, the first name.
pub open spec fn full_name_spec(last_name: Seq<char>, first_name: Seq<char>) -> Seq<char> {
    last_name + ", "@ + first_name
}

/// Puts a last name and a first name together as a full name.
pub fn full_name(last_name: String, first_name: &str) -> (name: String)
    ensures
        name@ == full_name_spec(last_name@, first_name@),
{
    let mut name = last_name;
    name.append(", ");
    name.append(first_name);
    name
}

/// The texts of a list, one after the other.
pub open spec fn concatenated(parts: Seq<String>) -> Seq<char>
    decreases parts.len(),
{
    if parts.len() == 0 {
        Seq::empty()
    } else {
        concatenated(parts.drop_last()) + parts.last()@
    }
}

/// Puts the texts of a list together, one after the other.
pub fn concat_all(parts: &Vec<String>) -> (text: String)
    ensures
        text@ == concatenated(parts@),
{
    let mut text = String::new();
    let mut position: usize = 0;
    while position < parts.len()
        invariant
            position <= parts@.len(),
            text@ == concatenated(parts@.take(position as int)),
        decreases parts.len() - position,
    {
        proof {
            assert(parts@.take(position + 1).drop_last() =~= parts@.take(position as int));
        }
        text.append(parts[position].as_str());
        position = position + 1;
    }
    assert(parts@.take(position as int) =~= parts@);
    text
}

/// How many digits a numeric text of the given length is made of: one
/// less than the length, and none for the length zero.
pub open spec fn digit_count_spec(length: usize) -> int {
    if length == 0 {
        0
    } else {
        length - 1
    }
}

/// Draws the digits of a numeric text of the given length, each as a text
/// of its own.
pub fn draw_digits(length: usize) -> (digits: Vec<String>)
    ensures
        digits@.len() == digit_count_spec(length),
        forall|i: int| 0 <= i < digits@.len() ==> is_single_digit((#[trigger] digits@[i])@),
{
    let mut digits: Vec<String> = Vec::new();
    let mut position: usize = 1;
    while position < length
        invariant
            1 <= position,
            position <= length || (length == 0 && position == 1),
            digits@.len() == position - 1,
            forall|i: int| 0 <= i < digits@.len() ==> is_single_digit((#[trigger] digits@[i])@),
        decreases length - position,
    {
        digits.push(draw_digit());
        position = position + 1;
    }
    digits
}

/// Single digits put together make a text of as many digits.
pub proof fn lemma_concatenated_digits(parts: Seq<String>)
    requires
        forall|i: int| 0 <= i < parts.len() ==> is_single_digit((#[trigger] parts[i])@),
    ensures
        concatenated(parts).len() == parts.len(),
        all_digits(concatenated(parts)),
    decreases parts.len(),
{
    if parts.len() > 0 {
        let front = parts.drop_last();
        assert forall|i: int| 0 <= i < front.len() implies is_single_digit(
            (#[trigger] front[i])@,
        ) by {
            assert(front[i] == parts[i]);
        }
        lemma_concatenated_digits(front);
        assert(is_single_digit(parts[parts.len() - 1]@));
        let text = concatenated(parts);
        assert forall|i: int| 0 <= i < text.len() implies is_digit(#[trigger] text[i]) by {
            if i < front.len() {
                assert(text[i] == concatenated(front)[i]);
            } else {
                assert(text[i] == parts.last()@[0]);
            }
        }
    }
}

/// The seed that a record type has unless it gives its own.
pub const DEFAULT_SEED: i32 = 12345;

/// A record that can replace its sensitive fields by made-up values.
///
/// Which fields are replaced, and by what, is the record type's own
/// business. `masks_to` says which records may come out of masking a given
/// one. The other methods hand out made-up values to mask with.
pub trait Mask: Sized {
    /// Whether `after` is a masked form of `self`. Unless a record type
    /// says more, every record counts as one.
    open spec fn masks_to(&self, after: &Self) -> bool {
        true
    }

    /// Replaces the sensitive fields in place.
    fn mask(&mut self)
        ensures
            old(self).masks_to(final(self)),
    ;

    /// The seed for a reproducible run: `DEFAULT_SEED`, unless the record
    /// type gives its own.
    fn seed() -> i32 {
        DEFAULT_SEED
    }

    /// A made-up name of a person: a first name and a last name with a
    /// space between them.
    fn fake_name() -> (name: String)
        ensures
            is_two_words(name@),
    {
        draw_name()
    }

    /// A made-up first name, which is not empty.
    fn fake_first_name() -> (name: String)
        ensures
            name@.len() > 0,
    {
        draw_first_name()
    }

    /// A made-up last name, which is not empty.
    fn fake_last_name() -> (name: String)
        ensures
            name@.len() > 0,
    {
        draw_last_name()
    }

    /// A made-up full name: a last name, a comma and a first name, as
    /// `fake_last_name` and `fake_first_name` give them.
    fn fake_full_name() -> (name: String)
        ensures
            exists|last_name: Seq<char>, first_name: Seq<char>|
                last_name.len() > 0 && first_name.len() > 0 && name@ == #[trigger] full_name_spec(
                    last_name,
                    first_name,
                ),
    {
        let last_name = Self::fake_last_name();
        let first_name = Self::fake_first_name();
        full_name(last_name, first_name.as_str())
    }

    /// Made-up comments or sample text: a short sentence, with its full
    /// stop.
    fn fake_comments() -> (comments: String)
        ensures
            is_sentence(comments@),
    {
        draw_sentence()
    }

    /// A made-up e-mail address, at a domain that is reserved for examples.
    fn fake_email() -> (email: String)
        ensures
            is_safe_email(email@),
    {
        draw_email()
    }

    /// A made-up street name: a name and the kind of street, with a space
    /// between them.
    fn fake_address() -> (street: String)
        ensures
            is_two_words(street@),
    {
        draw_street_name()
    }

    /// A made-up postal code: five digits, or five digits, a hyphen and
    /// four digits.
    fn fake_postal_code() -> (code: String)
        ensures
            is_post_code(code@),
    {
        draw_post_code()
    }

    /// A made-up phone number, in one of the patterns of phone numbers.
    fn fake_phone_number() -> (number: String)
        ensures
            is_phone_number(number@),
    {
        draw_phone_number()
    }

    /// A made-up extension of a phone number: two digits, as
    /// `fake_numeric_string` gives them.
    fn fake_phone_number_extension() -> (extension: String)
        ensures
            extension@.len() == 2,
            all_digits(extension@),
    {
        Self::fake_numeric_string(3)
    }

    /// A made-up numeric text: decimal digits, one less than `length`, and
    /// none for the length zero.
    fn fake_numeric_string(length: usize) -> (text: String)
        ensures
            text@.len() == digit_count_spec(length),
            all_digits(text@),
    {
        let digits = draw_digits(length);
        proof {
            lemma_concatenated_digits(digits@);
        }
        concat_all(&digits)
    }
}

} // verus!
