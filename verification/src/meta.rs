//! Interface metadata: how an instruction's accounts are described to the
//! tools that read a program's interface.

use vstd::prelude::*;
use vstd::string::{StrSliceExecFns, StringExecFns};

verus! {

/// Whether a character has the Unicode property Uppercase, as the standard
/// library tells it.
pub uninterp spec fn has_uppercase_property(c: char) -> bool;

/// Whether a character is an uppercase letter.
///
/// Calls `char::is_uppercase` of the standard library, which answers whether
/// the character has the Unicode property Uppercase.
#[verifier::external_body]
fn is_uppercase(c: char) -> (upper: bool)
    ensures
        upper == has_uppercase_property(c),
{
    c.is_uppercase()
}

/// A character with the letters `A` to `Z` made lowercase.
pub open spec fn ascii_lowercase(c: char) -> char {
    if 'A' <= c && c <= 'Z' {
        ((c as u8) + 32) as char
    } else {
        c
    }
}

/// Makes an ASCII letter lowercase: the letters `A` to `Z` become `a` to
/// `z`, and every other character stays as it is.
fn to_ascii_lowercase(c: char) -> (lower: char)
    ensures
        lower == ascii_lowercase(c),
{
    if c >= 'A' && c <= 'Z' {
        ((c as u8) + 32) as char
    } else {
        c
    }
}

/// Appends one character to a string.
///
/// Calls `String::push` of the standard library.
#[verifier::external_body]
fn push_char(out: &mut String, c: char)
    ensures
        final(out)@ == old(out)@.push(c),
{
    out.push(c)
}

/// What one character of a name becomes in snake case: an uppercase
/// character is made lowercase, after an underscore unless it is the first.
pub open spec fn snake_piece(name: Seq<char>, i: int) -> Seq<char> {
    if has_uppercase_property(name[i]) {
        if i > 0 {
            seq!['_', ascii_lowercase(name[i])]
        } else {
            seq![ascii_lowercase(name[i])]
        }
    } else {
        seq![name[i]]
    }
}

/// The snake case of the first `n` characters of a name.
pub open spec fn snake_prefix(name: Seq<char>, n: int) -> Seq<char>
    decreases n,
{
    if n <= 0 {
        Seq::empty()
    } else {
        snake_prefix(name, n - 1) + snake_piece(name, n - 1)
    }
}

/// A name in snake case.
pub open spec fn snake_case(name: Seq<char>) -> Seq<char> {
    snake_prefix(name, name.len() as int)
}

/// Turns a name in Pascal case into snake case.
pub fn to_snake_case(s: &str) -> (result: String)
    ensures
        result@ == snake_case(s@),
{
    let mut result = String::new();
    let n = s.unicode_len();
    let mut i: usize = 0;
    while i < n
        invariant
            i <= n == s@.len(),
            result@ == snake_prefix(s@, i as int),
        decreases n - i,
    {
        let c = s.get_char(i);
        if is_uppercase(c) {
            if i > 0 {
                push_char(&mut result, '_');
            }
            push_char(&mut result, to_ascii_lowercase(c));
        } else {
            push_char(&mut result, c);
        }
        i += 1;
        assert(result@ =~= snake_prefix(s@, i as int));
    }
    result
}

/// The character of a decimal digit.
pub open spec fn digit_char(digit: nat) -> char {
    (48 + digit) as char
}

/// A number in decimal, without leading zeros.
pub open spec fn decimal(n: nat) -> Seq<char>
    decreases n,
{
    if n < 10 {
        seq![digit_char(n)]
    } else {
        decimal(n / 10).push(digit_char(n % 10))
    }
}

/// Appends a number in decimal.
fn push_decimal(out: &mut String, n: usize)
    ensures
        final(out)@ == old(out)@ + decimal(n as nat),
    decreases n,
{
    if n >= 10 {
        push_decimal(out, n / 10);
    }
    let digit: u8 = 48 + (n % 10) as u8;
    push_char(out, digit as char);
    assert(out@ =~= old(out)@ + decimal(n as nat));
}

/// How one account of an instruction is described: its position, its name,
/// and what the instruction asks of it.
#[derive(Clone, Copy, Debug)]
pub struct ShankAccountMeta {
    /// The position in the instruction's accounts, from 0.
    pub index: usize,
    /// The account's name.
    pub name: &'static str,
    /// Whether the account must sign.
    pub is_signer: bool,
    /// Whether the account must be writable.
    pub is_writable: bool,
    /// Whether the account is a program.
    pub is_program: bool,
}

/// The attribute that describes an account: its position, `writable` and
/// `signer` where they are asked for, and its name.
pub open spec fn account_attribute(
    index: nat,
    name: Seq<char>,
    is_writable: bool,
    is_signer: bool,
) -> Seq<char> {
    "#[account("@ + decimal(index) + (if is_writable {
        ", writable"@
    } else {
        Seq::empty()
    }) + (if is_signer {
        ", signer"@
    } else {
        Seq::empty()
    }) + ", name=\""@ + name + "\")]"@
}

/// Writes the attribute that describes an account.
pub fn shank_attribute(index: usize, name: &str, is_writable: bool, is_signer: bool) -> (result:
    String)
    ensures
        result@ == account_attribute(index as nat, name@, is_writable, is_signer),
{
    let mut result = String::from_str("#[account(");
    push_decimal(&mut result, index);
    if is_writable {
        result.append(", writable");
    }
    if is_signer {
        result.append(", signer");
    }
    result.append(", name=\"");
    result.append(name);
    result.append("\")]");
    assert(result@ =~= account_attribute(index as nat, name@, is_writable, is_signer));
    result
}

impl ShankAccountMeta {
    /// The attribute that describes this account.
    pub fn to_shank_attribute(&self) -> (result: String)
        ensures
            result@ == account_attribute(
                self.index as nat,
                self.name@,
                self.is_writable,
                self.is_signer,
            ),
    {
        shank_attribute(self.index, self.name, self.is_writable, self.is_signer)
    }
}

/// Whether two texts are the same.
fn same_text(a: &str, b: &str) -> (same: bool)
    ensures
        same == (a@ == b@),
{
    a.to_owned() == b.to_owned()
}

/// What an instruction asks of an account whose field has the named type:
/// whether it signs, whether it is writable, whether it is a program, and
/// how many accounts the field stands for. A shard context stands for three
/// accounts; a type that is not known asks for nothing.
pub open spec fn field_constraints(kind: Seq<char>) -> (bool, bool, bool, usize) {
    if kind == "Signer"@ {
        (true, false, false, 1)
    } else if kind == "MutSigner"@ || kind == "Payer"@ {
        (true, true, false, 1)
    } else if kind == "AccountRefMut"@ || kind == "TokenAccountRefMut"@ || kind
        == "Writable"@ || kind == "Lut"@ {
        (false, true, false, 1)
    } else if kind == "SystemProgram"@ || kind == "TokenProgram"@ || kind
        == "AtaProgram"@ || kind == "AltProgram"@ || kind == "Token2022Program"@ {
        (false, false, true, 1)
    } else if kind == "ShardRefContext"@ {
        (false, false, false, 3)
    } else if kind == "ShardRefMutContext"@ {
        (false, true, false, 3)
    } else {
        (false, false, false, 1)
    }
}

/// Tells from the name of a field's type what the instruction asks of the
/// account: signer, writable, program, and the number of accounts.
pub fn analyze_field_type(kind: &str) -> (r: (bool, bool, bool, usize))
    ensures
        r == field_constraints(kind@),
{
    if same_text(kind, "Signer") {
        (true, false, false, 1)
    } else if same_text(kind, "MutSigner") || same_text(kind, "Payer") {
        (true, true, false, 1)
    } else if same_text(kind, "AccountRefMut") || same_text(kind, "TokenAccountRefMut")
        || same_text(kind, "Writable") || same_text(kind, "Lut") {
        (false, true, false, 1)
    } else if same_text(kind, "SystemProgram") || same_text(kind, "TokenProgram")
        || same_text(kind, "AtaProgram") || same_text(kind, "AltProgram") || same_text(
        kind,
        "Token2022Program",
    ) {
        (false, false, true, 1)
    } else if same_text(kind, "ShardRefContext") {
        (false, false, false, 3)
    } else if same_text(kind, "ShardRefMutContext") {
        (false, true, false, 3)
    } else {
        (false, false, false, 1)
    }
}

/// What a constraint written beside an account's name asks: `signer` and
/// `mut_signer` ask for a signature, `mut` and `mut_signer` for writability,
/// `program` says that the account is a program; any other asks nothing.
pub open spec fn constraint_flags(constraint: Seq<char>) -> (bool, bool, bool) {
    (
        constraint == "signer"@ || constraint == "mut_signer"@,
        constraint == "mut"@ || constraint == "mut_signer"@,
        constraint == "program"@,
    )
}

/// Reads a constraint: whether it asks for a signature, for writability,
/// and whether it names a program.
pub fn parse_constraint(constraint: &str) -> (r: (bool, bool, bool))
    ensures
        r == constraint_flags(constraint@),
{
    let both = same_text(constraint, "mut_signer");
    (
        same_text(constraint, "signer") || both,
        same_text(constraint, "mut") || both,
        same_text(constraint, "program"),
    )
}

/// One account of an instruction, as derived from a field of its context.
#[derive(Debug)]
pub struct AccountEntry {
    /// The position in the instruction's accounts.
    pub index: usize,
    /// The account's name.
    pub name: String,
    /// Whether the account must sign.
    pub is_signer: bool,
    /// Whether the account must be writable.
    pub is_writable: bool,
    /// Whether the account is a program.
    pub is_program: bool,
}

/// An `AccountEntry` as mathematical values.
pub struct Entry {
    /// The position in the instruction's accounts.
    pub index: nat,
    /// The account's name.
    pub name: Seq<char>,
    /// Whether the account must sign.
    pub is_signer: bool,
    /// Whether the account must be writable.
    pub is_writable: bool,
    /// Whether the account is a program.
    pub is_program: bool,
}

impl View for AccountEntry {
    type V = Entry;

    open spec fn view(&self) -> Entry {
        Entry {
            index: self.index as nat,
            name: self.name@,
            is_signer: self.is_signer,
            is_writable: self.is_writable,
            is_program: self.is_program,
        }
    }
}

impl AccountEntry {
    /// The attribute that describes this account.
    pub fn to_shank_attribute(&self) -> (result: String)
        ensures
            result@ == account_attribute(
                self@.index,
                self@.name,
                self.is_writable,
                self.is_signer,
            ),
    {
        shank_attribute(self.index, self.name.as_str(), self.is_writable, self.is_signer)
    }
}

/// The accounts that one field stands for, from position `index`: a shard
/// context stands for its low, current and high shard, each writable and
/// named after the field; any other field stands for one account with the
/// constraints of its type.
pub open spec fn field_entries(name: Seq<char>, kind: Seq<char>, index: nat) -> Seq<Entry> {
    let constraints = field_constraints(kind);
    if constraints.3 > 1 {
        seq![
            Entry {
                index,
                name: name + "_low_shard"@,
                is_signer: false,
                is_writable: true,
                is_program: false,
            },
            Entry {
                index: index + 1,
                name: name + "_current_shard"@,
                is_signer: false,
                is_writable: true,
                is_program: false,
            },
            Entry {
                index: index + 2,
                name: name + "_high_shard"@,
                is_signer: false,
                is_writable: true,
                is_program: false,
            },
        ]
    } else {
        seq![
            Entry {
                index,
                name,
                is_signer: constraints.0,
                is_writable: constraints.1,
                is_program: constraints.2,
            },
        ]
    }
}

/// The entries of a list as mathematical values.
pub open spec fn entries_view(entries: Seq<AccountEntry>) -> Seq<Entry> {
    Seq::new(entries.len(), |i: int| entries[i]@)
}

/// A shard entry: writable, named after the field and its position.
fn shard_entry(name: &str, suffix: &str, index: usize) -> (entry: AccountEntry)
    ensures
        entry@ == (Entry {
            index: index as nat,
            name: name@ + suffix@,
            is_signer: false,
            is_writable: true,
            is_program: false,
        }),
{
    let mut nested = String::from_str(name);
    nested.append(suffix);
    AccountEntry { index, name: nested, is_signer: false, is_writable: true, is_program: false }
}

/// Derives the accounts that one field of an instruction's context stands
/// for, the first of them at position `index`.
pub fn expand_field(name: &str, kind: &str, index: usize) -> (entries: Vec<AccountEntry>)
    requires
        index + 3 <= usize::MAX,
    ensures
        entries_view(entries@) == field_entries(name@, kind@, index as nat),
        entries@.len() == field_constraints(kind@).3 || entries@.len() == 1,
        entries@.len() == 1 || entries@.len() == 3,
{
    let (is_signer, is_writable, is_program, expand_count) = analyze_field_type(kind);
    let mut entries: Vec<AccountEntry> = Vec::new();
    if expand_count > 1 {
        entries.push(shard_entry(name, "_low_shard", index));
        entries.push(shard_entry(name, "_current_shard", index + 1));
        entries.push(shard_entry(name, "_high_shard", index + 2));
    } else {
        entries.push(
            AccountEntry {
                index,
                name: String::from_str(name),
                is_signer,
                is_writable,
                is_program,
            },
        );
    }
    assert(entries_view(entries@) =~= field_entries(name@, kind@, index as nat));
    entries
}

/// The accounts of the first `n` fields, the first account at position
/// `start`, beside the position that follows the last of them.
pub open spec fn fields_entries(
    fields: Seq<(Seq<char>, Seq<char>)>,
    start: nat,
    n: int,
) -> (Seq<Entry>, nat)
    decreases n,
{
    if n <= 0 {
        (Seq::empty(), start)
    } else {
        let before = fields_entries(fields, start, n - 1);
        let here = field_entries(fields[n - 1].0, fields[n - 1].1, before.1);
        (before.0 + here, before.1 + here.len())
    }
}

/// The names and type names of fields as mathematical values.
pub open spec fn fields_view(fields: &[(&str, &str)]) -> Seq<(Seq<char>, Seq<char>)> {
    Seq::new(fields@.len(), |i: int| (fields@[i].0@, fields@[i].1@))
}

/// The next position stays within three positions per field.
proof fn lemma_fields_entries_bound(fields: Seq<(Seq<char>, Seq<char>)>, start: nat, n: int)
    requires
        0 <= n,
    ensures
        fields_entries(fields, start, n).1 <= start + 3 * n,
        fields_entries(fields, start, n).1 == start + fields_entries(fields, start, n).0.len(),
    decreases n,
{
    if n > 0 {
        lemma_fields_entries_bound(fields, start, n - 1);
    }
}

/// Derives the accounts of an instruction from the fields of its context,
/// given as pairs of a field's name and the name of its type, in order. The
/// first account has position `start_index`.
pub fn instruction_accounts(fields: &[(&str, &str)], start_index: usize) -> (entries: Vec<
    AccountEntry,
>)
    requires
        start_index + 3 * fields@.len() + 3 <= usize::MAX,
    ensures
        entries_view(entries@) == fields_entries(
            fields_view(fields),
            start_index as nat,
            fields@.len() as int,
        ).0,
{
    let mut entries: Vec<AccountEntry> = Vec::new();
    let mut current: usize = start_index;
    let mut i: usize = 0;
    while i < fields.len()
        invariant
            i <= fields@.len(),
            start_index + 3 * fields@.len() + 3 <= usize::MAX,
            current == fields_entries(fields_view(fields), start_index as nat, i as int).1,
            entries_view(entries@) == fields_entries(
                fields_view(fields),
                start_index as nat,
                i as int,
            ).0,
        decreases fields@.len() - i,
    {
        proof {
            lemma_fields_entries_bound(fields_view(fields), start_index as nat, i as int);
        }
        let mut here = expand_field(fields[i].0, fields[i].1, current);
        let ghost before = entries@;
        let ghost added = here@;
        current = current + here.len();
        entries.append(&mut here);
        i += 1;
        assert(entries_view(entries@) =~= entries_view(before) + entries_view(added));
    }
    entries
}

/// The attributes of a list of accounts, one to a line, each line after the
/// first indented by four spaces.
pub open spec fn attributes_text(entries: Seq<Entry>, n: int) -> Seq<char>
    decreases n,
{
    if n <= 0 {
        Seq::empty()
    } else {
        attributes_text(entries, n - 1) + (if n > 1 {
            "\n    "@
        } else {
            Seq::empty()
        }) + account_attribute(
            entries[n - 1].index,
            entries[n - 1].name,
            entries[n - 1].is_writable,
            entries[n - 1].is_signer,
        )
    }
}

/// Writes the attributes of a list of accounts.
pub fn shank_accounts(entries: &Vec<AccountEntry>) -> (text: String)
    ensures
        text@ == attributes_text(entries_view(entries@), entries@.len() as int),
{
    let mut text = String::new();
    let mut i: usize = 0;
    while i < entries.len()
        invariant
            i <= entries@.len(),
            text@ == attributes_text(entries_view(entries@), i as int),
        decreases entries@.len() - i,
    {
        if i > 0 {
            text.append("\n    ");
        }
        let attribute = entries[i].to_shank_attribute();
        text.append(attribute.as_str());
        i += 1;
        assert(text@ =~= attributes_text(entries_view(entries@), i as int));
    }
    text
}

/// Whether a character is a decimal digit.
pub open spec fn is_digit(c: char) -> bool {
    '0' <= c && c <= '9'
}

/// The number that a text of decimal digits spells.
pub open spec fn digits_value(text: Seq<char>) -> nat
    decreases text.len(),
{
    if text.len() == 0 {
        0
    } else {
        digits_value(text.drop_last()) * 10 + (text.last() as nat - 48) as nat
    }
}

/// The discriminator that a text spells: the text is not empty, holds
/// decimal digits alone, and spells a number that fits into a byte.
pub open spec fn discriminator_of(text: Seq<char>) -> Option<u8> {
    if text.len() > 0 && (forall|i: int| 0 <= i < text.len() ==> is_digit(text[i]))
        && digits_value(text) <= 255 {
        Some(digits_value(text) as u8)
    } else {
        None
    }
}

/// A text of digits spells no less than any of its beginnings.
proof fn lemma_digits_value_grows(text: Seq<char>, n: int)
    requires
        0 <= n <= text.len(),
        forall|i: int| 0 <= i < text.len() ==> is_digit(text[i]),
    ensures
        digits_value(text.subrange(0, n)) <= digits_value(text),
    decreases text.len() - n,
{
    if n < text.len() {
        let longer = text.subrange(0, n + 1);
        assert(longer.drop_last() =~= text.subrange(0, n));
        assert(is_digit(text[n]));
        lemma_digits_value_grows(text, n + 1);
    } else {
        assert(text.subrange(0, n) =~= text);
    }
}

/// Reads a discriminator from the digits of an integer literal.
pub fn parse_discriminator(digits: &str) -> (r: Option<u8>)
    ensures
        r == discriminator_of(digits@),
{
    let n = digits.unicode_len();
    if n == 0 {
        return None;
    }
    let mut value: u16 = 0;
    let mut i: usize = 0;
    while i < n
        invariant
            i <= n == digits@.len(),
            forall|j: int| 0 <= j < i ==> is_digit(digits@[j]),
            value == digits_value(digits@.subrange(0, i as int)),
            value <= 255,
        decreases n - i,
    {
        let c = digits.get_char(i);
        if !(c >= '0' && c <= '9') {
            return None;
        }
        let digit: u16 = (c as u8 - 48) as u16;
        let next: u16 = value * 10 + digit;
        proof {
            let longer = digits@.subrange(0, i + 1);
            assert(longer.drop_last() =~= digits@.subrange(0, i as int));
            assert(digits_value(longer) == next);
        }
        if next > 255 {
            proof {
                if forall|j: int| 0 <= j < digits@.len() ==> is_digit(digits@[j]) {
                    lemma_digits_value_grows(digits@, i + 1);
                }
            }
            return None;
        }
        value = next;
        i += 1;
    }
    assert(digits@.subrange(0, n as int) =~= digits@);
    Some(value as u8)
}

/// The shape of a type as an interface description names it.
#[derive(Debug)]
pub enum TypeShape {
    /// A path, by the names of its segments.
    Path(Vec<String>),
    /// An array of an element type, with its length as written.
    Array(Box<TypeShape>, String),
    /// A reference, mutable or not, to a type.
    Reference(bool, Box<TypeShape>),
    /// Any other type, as written.
    Other(String),
}

/// The segments of a path with `::` between them.
pub open spec fn joined_path(segments: Seq<String>, n: int) -> Seq<char>
    decreases n,
{
    if n <= 0 {
        Seq::empty()
    } else {
        joined_path(segments, n - 1) + (if n > 1 {
            "::"@
        } else {
            Seq::empty()
        }) + segments[n - 1]@
    }
}

/// The text of a type: a path by its segments, an array as `[element;
/// length]`, a reference as `&` or `&mut ` before its target.
pub open spec fn type_text(shape: TypeShape) -> Seq<char>
    decreases shape,
{
    match shape {
        TypeShape::Path(segments) => joined_path(segments@, segments@.len() as int),
        TypeShape::Array(element, length) => "["@ + type_text(*element) + "; "@ + length@ + "]"@,
        TypeShape::Reference(mutable, target) => (if mutable {
            "&mut "@
        } else {
            "&"@
        }) + type_text(*target),
        TypeShape::Other(written) => written@,
    }
}

/// Writes a type as text.
pub fn type_to_string(shape: &TypeShape) -> (text: String)
    ensures
        text@ == type_text(*shape),
    decreases shape,
{
    match shape {
        TypeShape::Path(segments) => {
            let mut text = String::new();
            let mut i: usize = 0;
            while i < segments.len()
                invariant
                    i <= segments@.len(),
                    text@ == joined_path(segments@, i as int),
                decreases segments@.len() - i,
            {
                if i > 0 {
                    text.append("::");
                }
                text.append(segments[i].as_str());
                i += 1;
                assert(text@ =~= joined_path(segments@, i as int));
            }
            text
        },
        TypeShape::Array(element, length) => {
            let mut text = String::from_str("[");
            let inner = type_to_string(element);
            text.append(inner.as_str());
            text.append("; ");
            text.append(length.as_str());
            text.append("]");
            assert(text@ =~= type_text(*shape));
            text
        },
        TypeShape::Reference(mutable, target) => {
            let mut text = if *mutable {
                String::from_str("&mut ")
            } else {
                String::from_str("&")
            };
            let inner = type_to_string(target);
            text.append(inner.as_str());
            assert(text@ =~= type_text(*shape));
            text
        },
        TypeShape::Other(written) => written.clone(),
    }
}

} // verus!
