//! The owned snapshot of a transient log record.

use vstd::prelude::*;

use crate::level::{lemma_parse_label, level_label, parse_level, Level};
use vstd::std_specs::cmp::PartialEqSpec;

verus! {

/// The observable fields of a transient log record: what a snapshot reads
/// from it, and what rebuilding one restores.
#[verifier::ext_equal]
pub struct RecordFields {
    pub level: Level,
    pub args: Seq<char>,
    pub target: Seq<char>,
    pub module: Option<Seq<char>>,
    pub file: Option<Seq<char>>,
    pub line: Option<u32>,
}

/// The abstract value of a [`SerializableLogRecord`]: the same fields as
/// [`RecordFields`], with the severity replaced by its stored label.
#[verifier::ext_equal]
pub struct SnapshotFields {
    pub level: Seq<char>,
    pub args: Seq<char>,
    pub target: Seq<char>,
    pub module: Option<Seq<char>>,
    pub file: Option<Seq<char>>,
    pub line: Option<u32>,
}

/// The snapshot a record with the fields `h` yields: the severity becomes its
/// canonical label, every other field is copied verbatim.
pub open spec fn snapshot_of(h: RecordFields) -> SnapshotFields {
    SnapshotFields {
        level: level_label(h.level),
        args: h.args,
        target: h.target,
        module: h.module,
        file: h.file,
        line: h.line,
    }
}

/// The record fields that rebuilding from a snapshot `s` restores: the stored
/// label is parsed back (falling back to `Level::Warn`), every other field is
/// copied verbatim.
pub open spec fn rehydrated(s: SnapshotFields) -> RecordFields {
    RecordFields {
        level: parse_level(s.level),
        args: s.args,
        target: s.target,
        module: s.module,
        file: s.file,
        line: s.line,
    }
}

/// An owned, serializable copy of a transient log record.
///
/// The transient record's message is a lazily formatted, borrow-bound value;
/// a snapshot stores it fully formatted in `args`, and the severity as its
/// canonical string label in `level`, so the whole value is plain owned data.
#[derive(Debug, Clone, Eq, Hash)]
#[non_exhaustive]
pub struct SerializableLogRecord {
    pub level: String,
    pub args: String,
    pub target: String,
    pub module: Option<String>,
    pub file: Option<String>,
    pub line: Option<u32>,
}

impl View for SerializableLogRecord {
    type V = SnapshotFields;

    open spec fn view(&self) -> SnapshotFields {
        SnapshotFields {
            level: self.level@,
            args: self.args@,
            target: self.target@,
            module: self.module.deep_view(),
            file: self.file.deep_view(),
            line: self.line,
        }
    }
}

impl SerializableLogRecord {
    /// Build a snapshot from a record's fields, handed over as plain owned
    /// values; the message must already be formatted out.
    pub fn new(
        level: Level,
        args: String,
        target: String,
        module: Option<String>,
        file: Option<String>,
        line: Option<u32>,
    ) -> (r: Self)
        ensures
            r@ == snapshot_of(
                (RecordFields {
                    level,
                    args: args@,
                    target: target@,
                    module: module.deep_view(),
                    file: file.deep_view(),
                    line,
                }),
            ),
    {
        let r = SerializableLogRecord {
            level: level.as_str().to_owned(),
            args,
            target,
            module,
            file,
            line,
        };
        r
    }

    /// Parse a stored severity label back to a [`Level`], degrading any
    /// string outside the canonical label set to `Level::Warn`.
    pub fn string_to_level(level: &str) -> (r: Level)
        ensures
            r == parse_level(level@),
    {
        if str_eq(level, "ERROR") {
            Level::Error
        } else if str_eq(level, "WARN") {
            Level::Warn
        } else if str_eq(level, "INFO") {
            Level::Info
        } else if str_eq(level, "DEBUG") {
            Level::Debug
        } else if str_eq(level, "TRACE") {
            Level::Trace
        } else {
            Level::Warn
        }
    }
}

impl PartialEq for SerializableLogRecord {
    /// Structural equality: snapshots are equal exactly when all six fields
    /// are equal.
    fn eq(&self, other: &Self) -> (r: bool) {
        let module_eq = match (&self.module, &other.module) {
            (Some(a), Some(b)) => *a == *b,
            (None, None) => true,
            _ => false,
        };
        let file_eq = match (&self.file, &other.file) {
            (Some(a), Some(b)) => *a == *b,
            (None, None) => true,
            _ => false,
        };
        let r = self.level == other.level && self.args == other.args
            && self.target == other.target && module_eq && file_eq
            && self.line == other.line;
        proof {
            if r {
                assert(self@ =~= other@);
            }
        }
        r
    }
}

impl vstd::std_specs::cmp::PartialEqSpecImpl for SerializableLogRecord {
    open spec fn obeys_eq_spec() -> bool {
        true
    }

    open spec fn eq_spec(&self, other: &Self) -> bool {
        self@ == other@
    }
}

/// Law: rebuilding a record from its snapshot restores every field — the
/// severity survives the trip through its canonical label, and the message,
/// target and optional source fields are copied verbatim both ways.
pub proof fn lemma_round_trip(h: RecordFields)
    ensures
        rehydrated(snapshot_of(h)) == h,
{
    lemma_parse_label(h.level);
    assert(rehydrated(snapshot_of(h)) =~= h);
}

/// Law: snapshotting the same record twice yields equal snapshots.
pub proof fn lemma_snapshot_idempotent(
    a: &SerializableLogRecord,
    b: &SerializableLogRecord,
    h: RecordFields,
)
    requires
        a@ == snapshot_of(h),
        b@ == snapshot_of(h),
    ensures
        a.eq_spec(b),
{
}

/// Law: two snapshots are equal exactly when all six fields are equal, so
/// changing any one field breaks equality.
pub proof fn lemma_eq_iff_fields(a: &SerializableLogRecord, b: &SerializableLogRecord)
    ensures
        a.eq_spec(b) <==> (a.level@ == b.level@ && a.args@ == b.args@ && a.target@ == b.target@
            && a.module.deep_view() == b.module.deep_view()
            && a.file.deep_view() == b.file.deep_view() && a.line == b.line),
{
    if a.level@ == b.level@ && a.args@ == b.args@ && a.target@ == b.target@
        && a.module.deep_view() == b.module.deep_view() && a.file.deep_view() == b.file.deep_view()
        && a.line == b.line {
        assert(a@ =~= b@);
    }
}

/// Law: the optional source fields pass through snapshotting unchanged —
/// an absent module path, file or line stays absent, a present one keeps its
/// value.
pub proof fn lemma_optional_passthrough(h: RecordFields)
    ensures
        snapshot_of(h).module == h.module,
        snapshot_of(h).file == h.file,
        snapshot_of(h).line == h.line,
{
}

/// Character-by-character string comparison.
fn str_eq(a: &str, b: &str) -> (r: bool)
    ensures
        r == (a@ == b@),
{
    let a_len = a.unicode_len();
    let b_len = b.unicode_len();
    if a_len != b_len {
        return false;
    }
    let mut i: usize = 0;
    while i < a_len
        invariant
            a_len == a@.len(),
            b_len == b@.len(),
            a_len == b_len,
            i <= a_len,
            forall|j: int| 0 <= j < i ==> a@[j] == b@[j],
        decreases a_len - i,
    {
        if a.get_char(i) != b.get_char(i) {
            return false;
        }
        i += 1;
    }
    proof {
        assert(a@ =~= b@);
    }
    true
}

} // verus!
