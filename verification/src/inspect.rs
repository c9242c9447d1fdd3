//! The partition inspector: structured facts out of raw tool output.
//!
//! A partition-table line carries the partition number in its first
//! whitespace-delimited field; the disk probe (`blkid -o export`) answers
//! with `KEY=VALUE` lines of which only the `TYPE=` line is read. The
//! probe's invocation itself happens outside the library; this module is
//! handed its text, or `None` when the probe could not run at all.

use vstd::prelude::*;
use vstd::string::*;

use crate::digits::{all_digits, dec_rep, dec_value, parse_u8, u8_to_decimal};
use crate::text::{
    cut, fields_of, find_first_delim, has_prefix, lemma_fields_of_no_delim,
    lemma_fields_of_nonempty, lemma_fields_of_split_at, str_has_prefix, trim_end, trimmed_end,
    FatalParseError,
};

verus! {

/// The key that marks the filesystem line of the probe's export output.
pub open spec fn type_prefix() -> Seq<char> {
    seq!['T', 'Y', 'P', 'E', '=']
}

/// The filesystem named by the first `TYPE=` line, or empty when no line
/// carries that key.
pub open spec fn first_type_fs(lines: Seq<Seq<char>>) -> Seq<char>
    decreases lines.len(),
{
    if lines.len() == 0 {
        Seq::empty()
    } else if has_prefix(lines[0], type_prefix()) {
        lines[0].skip(5)
    } else {
        first_type_fs(lines.skip(1))
    }
}

/// The filesystem identifier that export-format probe output denotes.
pub open spec fn filesystem_of_export(s: Seq<char>) -> Seq<char> {
    first_type_fs(fields_of(s, '\n'))
}

proof fn lemma_first_type_fs_index(lines: Seq<Seq<char>>, i: int)
    requires
        0 <= i < lines.len(),
        has_prefix(lines[i], type_prefix()),
        forall|j: int| 0 <= j < i ==> !has_prefix(#[trigger] lines[j], type_prefix()),
    ensures
        first_type_fs(lines) == lines[i].skip(5),
    decreases i,
{
    if i == 0 {
    } else {
        assert(!has_prefix(lines[0], type_prefix()));
        assert forall|j: int| 0 <= j < i - 1 implies !has_prefix(
            #[trigger] lines.skip(1)[j],
            type_prefix(),
        ) by {
            assert(lines.skip(1)[j] == lines[j + 1]);
        }
        assert(lines.skip(1)[i - 1] == lines[i]);
        lemma_first_type_fs_index(lines.skip(1), i - 1);
    }
}

proof fn lemma_first_type_fs_none(lines: Seq<Seq<char>>)
    requires
        forall|j: int| 0 <= j < lines.len() ==> !has_prefix(#[trigger] lines[j], type_prefix()),
    ensures
        first_type_fs(lines) == Seq::<char>::empty(),
    decreases lines.len(),
{
    if lines.len() > 0 {
        assert forall|j: int| 0 <= j < lines.len() - 1 implies !has_prefix(
            #[trigger] lines.skip(1)[j],
            type_prefix(),
        ) by {
            assert(lines.skip(1)[j] == lines[j + 1]);
        }
        lemma_first_type_fs_none(lines.skip(1));
    }
}

/// Export text whose `i`-th line is the first `TYPE=` line resolves to
/// exactly the text of that line after `TYPE=`, up to the line end.
pub proof fn lemma_filesystem_of_export_type_line(s: Seq<char>, i: int)
    requires
        0 <= i < fields_of(s, '\n').len(),
        has_prefix(fields_of(s, '\n')[i], type_prefix()),
        forall|j: int| 0 <= j < i ==> !has_prefix(#[trigger] fields_of(s, '\n')[j], type_prefix()),
    ensures
        filesystem_of_export(s) == fields_of(s, '\n')[i].skip(5),
{
    lemma_first_type_fs_index(fields_of(s, '\n'), i);
}

/// Export text with no `TYPE=` line resolves to the empty filesystem,
/// never to an error: a partition without a filesystem is a legitimate
/// state.
pub proof fn lemma_filesystem_of_export_no_type_line(s: Seq<char>)
    requires
        forall|j: int| 0 <= j < fields_of(s, '\n').len() ==> !has_prefix(
            #[trigger] fields_of(s, '\n')[j],
            type_prefix(),
        ),
    ensures
        filesystem_of_export(s) == Seq::<char>::empty(),
{
    lemma_first_type_fs_none(fields_of(s, '\n'));
}

/// Select the first `TYPE=` line of export-format probe output and hand
/// back what stands after `TYPE=`; empty when no such line exists.
pub fn filesystem_from_export(export: &str) -> (r: String)
    ensures
        r@ == filesystem_of_export(export@),
{
    let mut s: &str = export;
    loop
        invariant
            filesystem_of_export(export@) == first_type_fs(fields_of(s@, '\n')),
        decreases s@.len(),
    {
        match find_first_delim(s, '\n') {
            None => {
                proof {
                    lemma_fields_of_no_delim(s@, '\n');
                    assert(fields_of(s@, '\n')[0] == s@);
                }
                if str_has_prefix(s, "TYPE=") {
                    proof {
                        reveal_strlit("TYPE=");
                        assert("TYPE="@ =~= type_prefix());
                    }
                    let n: usize = s.unicode_len();
                    let f = s.substring_char(5, n);
                    proof {
                        assert(f@ =~= s@.skip(5));
                    }
                    return f.to_owned();
                } else {
                    proof {
                        reveal_strlit("TYPE=");
                        assert("TYPE="@ =~= type_prefix());
                        assert(seq![s@].skip(1) =~= Seq::<Seq<char>>::empty());
                        assert(first_type_fs(Seq::<Seq<char>>::empty()) == Seq::<char>::empty());
                        assert(first_type_fs(seq![s@]) == Seq::<char>::empty());
                    }
                    return String::new();
                }
            },
            Some(j) => {
                proof {
                    lemma_fields_of_split_at(s@, '\n', j as int);
                    assert(fields_of(s@, '\n')[0] == s@.take(j as int));
                }
                let line = s.substring_char(0, j);
                proof {
                    assert(line@ =~= s@.take(j as int));
                }
                if str_has_prefix(line, "TYPE=") {
                    proof {
                        reveal_strlit("TYPE=");
                        assert("TYPE="@ =~= type_prefix());
                    }
                    let m: usize = line.unicode_len();
                    let f = line.substring_char(5, m);
                    proof {
                        assert(f@ =~= line@.skip(5));
                    }
                    return f.to_owned();
                } else {
                    proof {
                        reveal_strlit("TYPE=");
                        assert("TYPE="@ =~= type_prefix());
                    }
                    let n: usize = s.unicode_len();
                    let rest = s.substring_char(j + 1, n);
                    proof {
                        assert(rest@ =~= s@.skip(j + 1));
                        assert((seq![s@.take(j as int)] + fields_of(s@.skip(j + 1), '\n')).skip(1)
                            =~= fields_of(s@.skip(j + 1), '\n'));
                    }
                    s = rest;
                }
            },
        }
    }
}

/// The sentinel that stands for "the disk probe could not run": distinct
/// from the empty filesystem, which means "nothing to check".
pub open spec fn error_sentinel() -> Seq<char> {
    seq!['E', 'R', 'R', 'O', 'R']
}

/// Filesystem identifier out of a disk probe's outcome: the parsed
/// export text when the probe answered, the `ERROR` sentinel when the
/// probe could not run at all. A probe failure is transient and handed
/// to the caller as data, never as an abort.
pub fn probe_filesystem(probe: Option<&str>) -> (r: String)
    ensures
        match probe {
            Some(t) => r@ == filesystem_of_export(t@),
            None => r@ == error_sentinel(),
        },
{
    match probe {
        Some(t) => filesystem_from_export(t),
        None => {
            let e: &str = "ERROR";
            proof {
                reveal_strlit("ERROR");
                assert(e@ =~= error_sentinel());
            }
            e.to_owned()
        },
    }
}

/// The partition-number field of a table line: its first space-delimited
/// field, with trailing whitespace removed.
pub open spec fn number_field(line: Seq<char>) -> Seq<char> {
    trimmed_end(fields_of(line, ' ')[0])
}

/// Parse the one-based partition number out of a partition-table line.
/// The call fails exactly when the first field is not a base-ten number
/// that fits in a `u8`; such a line no longer has the shape the rest of
/// the run relies on.
pub fn partition_number_from_line(line: &str) -> (r: Result<u8, FatalParseError>)
    ensures
        r matches Ok(v) ==> number_field(line@).len() > 0 && all_digits(number_field(line@))
            && dec_value(number_field(line@)) == v as int,
        r is Err ==> !(number_field(line@).len() > 0 && all_digits(number_field(line@))
            && dec_value(number_field(line@)) <= 255),
{
    proof {
        lemma_fields_of_nonempty(line@, ' ');
    }
    let first = match cut(line, ' ', 0) {
        Ok(f) => f,
        Err(e) => {
            return Err(e);
        },
    };
    let trimmed = trim_end(first.as_str());
    parse_u8(trimmed.as_str())
}

/// The device node path of partition `number` on the disk whose
/// canonical path is `disk`: the disk path with the number appended in
/// base ten.
pub fn device_path(disk: &str, number: u8) -> (r: String)
    ensures
        r@ == disk@ + dec_rep(number as int),
{
    let mut out = disk.to_owned();
    let num = u8_to_decimal(number);
    out.append(num.as_str());
    out
}

/// What one inspection learns about a partition.
pub struct PartitionFact {
    /// One-based partition index, from the table line's first field.
    pub number: u8,
    /// Lowercase filesystem identifier from the probe's `TYPE=` line;
    /// empty when the partition has no filesystem (an LVM member, say),
    /// the `ERROR` sentinel when the probe could not run.
    pub filesystem: String,
}

/// Inspect one partition: the number from its table line, the
/// filesystem from the disk probe run against its device node.
pub fn inspect_partition(table_line: &str, probe: Option<&str>) -> (r: Result<
    PartitionFact,
    FatalParseError,
>)
    ensures
        r matches Ok(fact) ==> {
            &&& number_field(table_line@).len() > 0
            &&& all_digits(number_field(table_line@))
            &&& dec_value(number_field(table_line@)) == fact.number as int
            &&& match probe {
                Some(t) => fact.filesystem@ == filesystem_of_export(t@),
                None => fact.filesystem@ == error_sentinel(),
            }
        },
        r is Err ==> !(number_field(table_line@).len() > 0 && all_digits(number_field(table_line@))
            && dec_value(number_field(table_line@)) <= 255),
{
    let number = match partition_number_from_line(table_line) {
        Ok(n) => n,
        Err(e) => {
            return Err(e);
        },
    };
    let filesystem = probe_filesystem(probe);
    Ok(PartitionFact { number, filesystem })
}

} // verus!
