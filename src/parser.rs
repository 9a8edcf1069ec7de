use vstd::prelude::*;
use crate::command::Command;
use crate::text::{
    find_char, find_from, field_value, is_decimal, is_decimal_text,
    split_char, split_from, value_of,
};

verus! {

/// Why a statistics answer was refused.
#[derive(Clone, Copy, Debug, PartialEq, Eq, Structural)]
pub enum ParseFailure {
    /// No `;` separates the preamble from the echoed command.
    MissingSeparator,
    /// No space follows the echoed command, so there is no field list.
    MissingFieldList,
    /// The field list has fewer fields than the command answers with.
    TooFewFields,
    /// The field at this position has no value after its key.
    MalformedField(usize),
    /// The value at this position is not a decimal literal.
    NotANumber(usize),
    /// The value at this position does not fit a finite float.
    NotFinite(usize),
}

/// A refused answer, with its text kept for diagnostics.
#[derive(Clone, Debug)]
pub struct ProtocolParseError {
    pub kind: ParseFailure,
    pub raw: String,
}

/// Index of the first character of the field list, if the answer has one.
pub open spec fn field_list_start(raw: Seq<char>) -> Option<int> {
    let sep = find_from(raw, ';', 0);
    if sep >= raw.len() {
        None
    } else {
        let sp = find_from(raw, ' ', sep + 1);
        if sp >= raw.len() {
            None
        } else {
            Some(sp + 1)
        }
    }
}

/// The comma-separated fields of an answer that has a field list.
pub open spec fn field_texts(raw: Seq<char>) -> Seq<Seq<char>> {
    match field_list_start(raw) {
        Some(start) => split_from(raw, ',', start),
        None => Seq::empty(),
    }
}

/// What is wrong with the field at position `i`, if anything.
pub open spec fn field_failure(field: Seq<char>, i: int) -> Option<ParseFailure> {
    match value_of(field) {
        None => Some(ParseFailure::MalformedField(i as usize)),
        Some(v) => if is_decimal(v) {
            None
        } else {
            Some(ParseFailure::NotANumber(i as usize))
        },
    }
}

/// The first failure among the fields at positions `i..n`.
pub open spec fn first_failure(fields: Seq<Seq<char>>, i: int, n: int) -> Option<ParseFailure>
    decreases n - i,
{
    if i < n {
        match field_failure(fields[i], i) {
            Some(f) => Some(f),
            None => first_failure(fields, i + 1, n),
        }
    } else {
        None
    }
}

/// The value texts of the first `n` fields of an answer, positionally; the
/// keys are not looked at.
pub open spec fn parse_values(raw: Seq<char>, n: nat) -> Result<Seq<Seq<char>>, ParseFailure> {
    if find_from(raw, ';', 0) >= raw.len() {
        Err(ParseFailure::MissingSeparator)
    } else if field_list_start(raw) is None {
        Err(ParseFailure::MissingFieldList)
    } else if field_texts(raw).len() < n {
        Err(ParseFailure::TooFewFields)
    } else {
        match first_failure(field_texts(raw), 0, n as int) {
            Some(f) => Err(f),
            None => Ok(Seq::new(n, |i: int| value_of(field_texts(raw)[i])->0)),
        }
    }
}

/// `r` is what parsing `raw` for `command` gives: the value texts of the
/// fields, or the failure together with the refused text.
pub open spec fn parse_outcome(
    raw: Seq<char>,
    command: Command,
    r: Result<Vec<String>, ProtocolParseError>,
) -> bool {
    match r {
        Ok(values) => parse_values(raw, command.field_count()) == Ok::<
            Seq<Seq<char>>,
            ParseFailure,
        >(values@.map_values(|v: String| v@)),
        Err(e) => parse_values(raw, command.field_count()) == Err::<Seq<Seq<char>>, ParseFailure>(
            e.kind,
        ) && e.raw@ == raw,
    }
}

/// Parsing the same text twice gives the same values, or the same failure.
pub proof fn lemma_parse_idempotent(
    raw: Seq<char>,
    command: Command,
    first: Result<Vec<String>, ProtocolParseError>,
    second: Result<Vec<String>, ProtocolParseError>,
)
    requires
        parse_outcome(raw, command, first),
        parse_outcome(raw, command, second),
    ensures
        first is Ok <==> second is Ok,
        first is Ok ==> first->Ok_0@.map_values(|v: String| v@) == second->Ok_0@.map_values(
            |v: String| v@,
        ),
        first is Err ==> first->Err_0.kind == second->Err_0.kind && first->Err_0.raw@
            == second->Err_0.raw@,
{
}

/// Splits an answer of the node into the value texts of `command`'s fields.
///
/// The answer is `preamble;echoed-command key: value, key: value, ...`; the
/// values are taken by position and each must be a decimal literal.
pub fn parse_response(raw: &str, command: Command) -> (r: Result<Vec<String>, ProtocolParseError>)
    ensures
        parse_outcome(raw@, command, r),
        field_list_start(raw@) is Some && field_texts(raw@).len() < command.field_count()
            ==> r is Err,
        r is Ok ==> r->Ok_0@.len() == command.field_count(),
        r is Ok ==> forall|i: int|
            0 <= i < command.field_count() ==> is_decimal(#[trigger] r->Ok_0@[i]@),
{
    let len = raw.unicode_len();
    let n = command.expected_field_count();
    let sep = find_char(raw, len, ';', 0);
    if sep == len {
        return Err(ProtocolParseError { kind: ParseFailure::MissingSeparator, raw: raw.to_owned() });
    }
    let sp = find_char(raw, len, ' ', sep + 1);
    if sp == len {
        return Err(ProtocolParseError { kind: ParseFailure::MissingFieldList, raw: raw.to_owned() });
    }
    let fields = split_char(raw, len, ',', sp + 1);
    let ghost fs = field_texts(raw@);
    proof {
        assert(fields@.map_values(|p: String| p@) == fs);
        assert(fields@.len() == fs.len());
    }
    if fields.len() < n {
        return Err(ProtocolParseError { kind: ParseFailure::TooFewFields, raw: raw.to_owned() });
    }
    let mut values: Vec<String> = Vec::new();
    let mut i: usize = 0;
    while i < n
        invariant
            i <= n,
            n == command.field_count(),
            n <= fields@.len(),
            fields@.map_values(|p: String| p@) == fs,
            fs == field_texts(raw@),
            first_failure(fs, 0, n as int) == first_failure(fs, i as int, n as int),
            values@.len() == i,
            forall|j: int| 0 <= j < i ==> value_of(fs[j]) == Some(#[trigger] values@[j]@),
            forall|j: int| 0 <= j < i ==> is_decimal(#[trigger] values@[j]@),
        decreases n - i,
    {
        assert(fields@[i as int]@ == fs[i as int]);
        match field_value(fields[i].as_str()) {
            None => {
                return Err(
                    ProtocolParseError { kind: ParseFailure::MalformedField(i), raw: raw.to_owned() },
                );
            },
            Some(v) => {
                if !is_decimal_text(v.as_str()) {
                    return Err(
                        ProtocolParseError { kind: ParseFailure::NotANumber(i), raw: raw.to_owned() },
                    );
                }
                values.push(v);
            },
        }
        i = i + 1;
    }
    proof {
        assert(values@.map_values(|v: String| v@) =~= Seq::new(
            n as nat,
            |j: int| value_of(fs[j])->0,
        ));
    }
    Ok(values)
}

} // verus!
