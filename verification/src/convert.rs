use vstd::prelude::*;
use crate::archive::{
    arch_entries, arch_source, archive_len, copy_entry, emit_zip, entry_name, finish_accepts,
    finish_writer, new_writer, open_archive, parse_zip, readable_zip, writer_accepts,
    writer_entries, zip_error_text,
};
use crate::encoding::{decode_name, decode_of, encoding_name_ok};
use crate::errors::{ConvertError, DecodeError};

verus! {

/// Every stored name of `entries` decodes under the encoding `enc`.
pub open spec fn all_decodable(entries: Seq<(Seq<u8>, Seq<u8>)>, enc: Seq<char>) -> bool {
    forall|i: int| 0 <= i < entries.len() ==> decode_of(#[trigger] entries[i].0, enc) is Some
}

/// The entries of the rewritten archive: each record kept in place, each
/// stored name replaced by its decoding under `enc`.
pub open spec fn converted_entries(entries: Seq<(Seq<u8>, Seq<u8>)>, enc: Seq<char>) -> Seq<
    (Seq<char>, Seq<u8>),
> {
    entries.map_values(|e: (Seq<u8>, Seq<u8>)| (decode_of(e.0, enc)->Some_0, e.1))
}

/// What a conversion of `bytes` under `enc` produces when it succeeds: the
/// emitted archive holding the converted entries.  `None` when the bytes are
/// not a readable archive or some name does not decode.
pub open spec fn convert_output(bytes: Seq<u8>, enc: Seq<char>) -> Option<Seq<u8>> {
    match parse_zip(bytes) {
        Some(entries) => if all_decodable(entries, enc) {
            Some(emit_zip(converted_entries(entries, enc)))
        } else {
            None
        },
        None => None,
    }
}

/// Every entry of the archive parsed from `bytes` can be opened raw.
pub open spec fn all_readable(bytes: Seq<u8>) -> bool {
    forall|i: int|
        0 <= i < parse_zip(bytes)->Some_0.len() ==> #[trigger] readable_zip(bytes, i)
}

/// The writer accepts each converted entry of `entries` in turn: appending
/// entry `i`'s record under its decoded name, after the first `i` converted
/// entries went in.
pub open spec fn appends_accepted(entries: Seq<(Seq<u8>, Seq<u8>)>, enc: Seq<char>) -> bool {
    forall|i: int|
        #![trigger entries.take(i)]
        0 <= i < entries.len() ==> writer_accepts(
            converted_entries(entries.take(i), enc),
            decode_of(entries[i].0, enc)->Some_0,
            entries[i].1,
        )
}

/// The conditions under which a conversion of `bytes` under `enc` is owed
/// success: the bytes parse, every stored name decodes, every entry can be
/// opened raw, and the writer accepts every append and the finish.
pub open spec fn convert_succeeds(bytes: Seq<u8>, enc: Seq<char>) -> bool {
    &&& parse_zip(bytes) is Some
    &&& all_decodable(parse_zip(bytes)->Some_0, enc)
    &&& all_readable(bytes)
    &&& appends_accepted(parse_zip(bytes)->Some_0, enc)
    &&& finish_accepts(converted_entries(parse_zip(bytes)->Some_0, enc))
}

/// Rewrite the archive held in `input`: copy every entry's payload and
/// metadata unchanged while replacing its stored name with the name's
/// decoding from `encoding` to UTF-8.  A single name that does not decode
/// fails the whole rewrite; the first such name is reported with its entry
/// index and raw bytes.  When the input parses, every name decodes and the
/// archive library accepts every read, append and the finish, success is
/// owed; an archive error is only ever returned for one of those
/// archive-side failures.
pub fn convert_archive(input: Vec<u8>, encoding: &str) -> (r: Result<Vec<u8>, ConvertError>)
    requires
        encoding_name_ok(encoding@),
    ensures
        convert_succeeds(input@, encoding@) ==> r is Ok,
        r is Ok ==> convert_output(input@, encoding@) == Some(r->Ok_0@),
        parse_zip(input@) is None ==> r matches Err(ConvertError::Archive { .. }),
        parse_zip(input@) matches Some(entries) && !all_decodable(entries, encoding@) ==> r is Err,
        r matches Err(ConvertError::Archive { .. }) ==> {
            ||| parse_zip(input@) is None
            ||| exists|i: int|
                0 <= i < parse_zip(input@)->Some_0.len() && !(#[trigger] readable_zip(input@, i))
            ||| exists|i: int|
                #![trigger parse_zip(input@)->Some_0.take(i)]
                0 <= i < parse_zip(input@)->Some_0.len() && !writer_accepts(
                    converted_entries(parse_zip(input@)->Some_0.take(i), encoding@),
                    decode_of(parse_zip(input@)->Some_0[i].0, encoding@)->Some_0,
                    parse_zip(input@)->Some_0[i].1,
                )
            ||| !finish_accepts(converted_entries(parse_zip(input@)->Some_0, encoding@))
        },
        r matches Err(ConvertError::Decode { index, raw, error }) ==> {
            &&& parse_zip(input@) is Some
            &&& index < parse_zip(input@)->Some_0.len()
            &&& raw@ == parse_zip(input@)->Some_0[index as int].0
            &&& decode_of(raw@, encoding@) is None
            &&& forall|j: int|
                0 <= j < index ==> decode_of(
                    #[trigger] parse_zip(input@)->Some_0[j].0,
                    encoding@,
                ) is Some
        },
{
    let ghost enc = encoding@;
    let mut a = match open_archive(input) {
        Ok(a) => a,
        Err(e) => {
            let detail = zip_error_text(&e);
            return Err(ConvertError::Archive { detail });
        },
    };
    let ghost ents = parse_zip(input@)->Some_0;
    let n = archive_len(&a);
    let mut w = new_writer();
    let mut i: usize = 0;
    while i < n
        invariant
            n == ents.len(),
            i <= n,
            arch_entries(a) == ents,
            arch_source(a) == input@,
            writer_entries(w) == converted_entries(ents.take(i as int), enc),
            forall|j: int| 0 <= j < i ==> decode_of(#[trigger] ents[j].0, enc) is Some,
            enc == encoding@,
            encoding_name_ok(enc),
            parse_zip(input@) == Some(ents),
        decreases n - i,
    {
        let raw = match entry_name(&mut a, i) {
            Ok(v) => v,
            Err(e) => {
                let detail = zip_error_text(&e);
                return Err(ConvertError::Archive { detail });
            },
        };
        let name = match decode_name(&raw, encoding) {
            Ok(s) => s,
            Err(error) => {
                return Err(ConvertError::Decode { index: i, raw, error });
            },
        };
        match copy_entry(&mut a, i, &mut w, name.as_str()) {
            Ok(u) => u,
            Err(e) => {
                let detail = zip_error_text(&e);
                return Err(ConvertError::Archive { detail });
            },
        };
        proof {
            assert(ents.take(i + 1) =~= ents.take(i as int).push(ents[i as int]));
            assert(writer_entries(w) =~= converted_entries(ents.take(i + 1), enc));
        }
        i += 1;
    }
    proof {
        assert(ents.take(n as int) =~= ents);
    }
    match finish_writer(w) {
        Ok(bytes) => Ok(bytes),
        Err(e) => {
            let detail = zip_error_text(&e);
            Err(ConvertError::Archive { detail })
        },
    }
}

/// The outcome of converting one stored name, as the listing reports it.
#[derive(Debug)]
pub enum NameOutcome {
    /// The stored bytes and the UTF-8 name they decode to.
    Converted { raw: Vec<u8>, name: String },
    /// The stored bytes and why they did not decode.
    Failed { raw: Vec<u8>, error: DecodeError },
}

/// `line` reports the stored name `raw` correctly: its decoding when the
/// name decodes under `enc`, the failure otherwise.
pub open spec fn outcome_for(line: NameOutcome, raw: Seq<u8>, enc: Seq<char>) -> bool {
    match decode_of(raw, enc) {
        Some(text) => match line {
            NameOutcome::Converted { raw: r, name: n } => r@ == raw && n@ == text,
            NameOutcome::Failed { .. } => false,
        },
        None => match line {
            NameOutcome::Converted { .. } => false,
            NameOutcome::Failed { raw: r, error: _ } => r@ == raw,
        },
    }
}

/// Report, one line per entry and in the archive's own order, each stored
/// name together with its decoding under `encoding`, or with the decode
/// failure.  One undecodable name does not stop the listing: when the
/// bytes parse and every entry can be opened, success is owed, and an
/// error only ever reports that the archive could not be opened or
/// enumerated.  The input is only read; nothing is modified.
pub fn list_archive(input: Vec<u8>, encoding: &str) -> (r: Result<Vec<NameOutcome>, ConvertError>)
    requires
        encoding_name_ok(encoding@),
    ensures
        parse_zip(input@) is Some && all_readable(input@) ==> r is Ok,
        r is Ok ==> {
            &&& parse_zip(input@) is Some
            &&& r->Ok_0@.len() == parse_zip(input@)->Some_0.len()
            &&& forall|i: int|
                0 <= i < r->Ok_0@.len() ==> outcome_for(
                    #[trigger] r->Ok_0@[i],
                    parse_zip(input@)->Some_0[i].0,
                    encoding@,
                )
        },
        parse_zip(input@) is None ==> r matches Err(ConvertError::Archive { .. }),
        r is Err ==> parse_zip(input@) is None || exists|i: int|
            0 <= i < parse_zip(input@)->Some_0.len() && !(#[trigger] readable_zip(input@, i)),
{
    let ghost enc = encoding@;
    let mut a = match open_archive(input) {
        Ok(a) => a,
        Err(e) => {
            let detail = zip_error_text(&e);
            return Err(ConvertError::Archive { detail });
        },
    };
    let ghost ents = parse_zip(input@)->Some_0;
    let n = archive_len(&a);
    let mut lines: Vec<NameOutcome> = Vec::new();
    let mut i: usize = 0;
    while i < n
        invariant
            n == ents.len(),
            i <= n,
            arch_entries(a) == ents,
            arch_source(a) == input@,
            lines@.len() == i,
            forall|j: int| 0 <= j < i ==> outcome_for(#[trigger] lines@[j], ents[j].0, enc),
            enc == encoding@,
            encoding_name_ok(enc),
            parse_zip(input@) == Some(ents),
        decreases n - i,
    {
        let raw = match entry_name(&mut a, i) {
            Ok(v) => v,
            Err(e) => {
                let detail = zip_error_text(&e);
                return Err(ConvertError::Archive { detail });
            },
        };
        let line = match decode_name(&raw, encoding) {
            Ok(name) => NameOutcome::Converted { raw, name },
            Err(error) => NameOutcome::Failed { raw, error },
        };
        lines.push(line);
        i += 1;
    }
    Ok(lines)
}

/// A successful conversion keeps the entry count, keeps each entry's copied
/// record in its place, and gives each entry the decoding of its original
/// stored name.
pub proof fn lemma_converted_entries_pointwise(entries: Seq<(Seq<u8>, Seq<u8>)>, enc: Seq<char>)
    ensures
        converted_entries(entries, enc).len() == entries.len(),
        forall|i: int|
            0 <= i < entries.len() ==> #[trigger] converted_entries(entries, enc)[i] == (
                decode_of(entries[i].0, enc)->Some_0,
                entries[i].1,
            ),
{
}

/// Conversion is deterministic: two successful conversions of the same
/// bytes under the same encoding produce identical archives.
pub proof fn lemma_convert_deterministic(bytes: Seq<u8>, enc: Seq<char>, a: Seq<u8>, b: Seq<u8>)
    requires
        convert_output(bytes, enc) == Some(a),
        convert_output(bytes, enc) == Some(b),
    ensures
        a == b,
{
}

/// Under the conditions that oblige a conversion to succeed, its output is
/// defined — so two runs on the same bytes and encoding are both obliged to
/// return it, and return the same bytes.
pub proof fn lemma_convert_obliged(bytes: Seq<u8>, enc: Seq<char>)
    requires
        convert_succeeds(bytes, enc),
    ensures
        convert_output(bytes, enc) is Some,
{
}

} // verus!
