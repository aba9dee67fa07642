//! Decoding a foreign handle into an owned, statically tagged value, the
//! composite views over foreign lists and dag nodes, and the typed
//! projections out of a decoded value.

use vstd::prelude::*;
use crate::error::{ErrorView, TableGenError};
use crate::foreign::{
    arg_name_bytes, bits_of, dag_args, list_elems, str_bytes, tag_of, ForeignGraph, InitHandle,
    RawValue, RecTyKind,
};
use crate::record::Record;

verus! {

/// What `String::from_utf8_lossy` makes of a byte string: a function of the
/// bytes alone, left unspecified here.
pub uninterp spec fn lossy_utf8(bytes: Seq<u8>) -> Seq<char>;

/// Relies on `String::from_utf8_lossy`: converts losslessly where the bytes
/// are valid UTF-8 and substitutes invalid sequences otherwise; the result
/// depends on the bytes alone and is named `lossy_utf8`.
#[verifier::external_body]
fn lossy_string(bytes: &Vec<u8>) -> (r: String)
    ensures
        r@ == lossy_utf8(bytes@),
{
    String::from_utf8_lossy(bytes.as_slice()).into_owned()
}

/// An owned, closed-variant representation of one decoded foreign value.
/// Exactly one variant is active; it is fixed by the foreign type tag at
/// decode time and never changes afterwards.
#[derive(Debug, PartialEq)]
pub enum TypedInit {
    /// A single boolean-valued field, restricted to {0, 1}.
    Bit(i8),
    /// A fixed-length bit array, decoded element by element.
    Bits(Vec<i8>),
    /// Owned character data, as `String`; kept apart for callers that care.
    Code(String),
    /// A 64-bit signed integer.
    Int(i64),
    /// Owned character data, lossily converted where the foreign bytes were
    /// not valid UTF-8.
    String(String),
    /// A non-owning view over a foreign ordered list.
    List(ListInit),
    /// A non-owning view over a foreign dag node.
    Dag(DagInit),
    /// An owned reference to another foreign record.
    Record(Record),
    /// A foreign type tag this decoder version does not recognize; never a
    /// hard failure, so tags added later still decode.
    Invalid,
}

/// The mathematical model of a `TypedInit`: composite views reduce to the
/// foreign handle they wrap, owned payloads to their sequences.
pub enum InitView {
    Bit(i8),
    Bits(Seq<i8>),
    Code(Seq<char>),
    Int(i64),
    Str(Seq<char>),
    List(int),
    Dag(int),
    Record(int),
    Invalid,
}

impl View for TypedInit {
    type V = InitView;

    open spec fn view(&self) -> InitView {
        match self {
            TypedInit::Bit(b) => InitView::Bit(*b),
            TypedInit::Bits(v) => InitView::Bits(v@),
            TypedInit::Code(s) => InitView::Code(s@),
            TypedInit::Int(i) => InitView::Int(*i),
            TypedInit::String(s) => InitView::Str(s@),
            TypedInit::List(l) => InitView::List(l.raw as int),
            TypedInit::Dag(d) => InitView::Dag(d.raw as int),
            TypedInit::Record(r) => InitView::Record(r.spec_raw() as int),
            TypedInit::Invalid => InitView::Invalid,
        }
    }
}

/// What decoding the value behind `h` must produce, by case on its raw form.
pub open spec fn spec_decode(g: Seq<RawValue>, h: int) -> Result<InitView, ErrorView> {
    match g[h] {
        RawValue::Bit(b) => if b == 0 || b == 1 {
            Ok(InitView::Bit(b))
        } else {
            Err(ErrorView::InvalidBitRange)
        },
        RawValue::Bits(v) => if v@.len() == 0 {
            Err(ErrorView::NullPointer)
        } else {
            Ok(InitView::Bits(v@))
        },
        RawValue::Int(i) => Ok(InitView::Int(i)),
        RawValue::List(_) => Ok(InitView::List(h)),
        RawValue::Dag(_) => Ok(InitView::Dag(h)),
        RawValue::Def(d) => Ok(InitView::Record(d as int)),
        RawValue::Str(bytes) => Ok(InitView::Str(lossy_utf8(bytes@))),
        RawValue::Unknown => Ok(InitView::Invalid),
    }
}

/// A decode result, carried over to views.
pub open spec fn result_view(r: Result<TypedInit, TableGenError>) -> Result<InitView, ErrorView> {
    match r {
        Ok(v) => Ok(v@),
        Err(e) => Err(e@),
    }
}

/// An optional decoded value, carried over to views.
pub open spec fn option_view(r: Option<TypedInit>) -> Option<InitView> {
    match r {
        Some(v) => Some(v@),
        None => None,
    }
}

/// An optional owned string, carried over to views.
pub open spec fn option_string_view(r: Option<String>) -> Option<Seq<char>> {
    match r {
        Some(s) => Some(s@),
        None => None,
    }
}

/// What a bounds-checked list access must produce: the decoded element where
/// the index is in range and the element decodes, `None` otherwise.
pub open spec fn spec_list_get(g: Seq<RawValue>, h: int, i: int) -> Option<InitView> {
    if 0 <= i < list_elems(g, h).len() {
        match spec_decode(g, list_elems(g, h)[i] as int) {
            Ok(v) => Some(v),
            Err(_) => None,
        }
    } else {
        None
    }
}

/// What a bounds-checked dag argument access must produce.
pub open spec fn spec_dag_get(g: Seq<RawValue>, h: int, i: int) -> Option<InitView> {
    if 0 <= i < dag_args(g, h).len() {
        match spec_decode(g, dag_args(g, h)[i].value as int) {
            Ok(v) => Some(v),
            Err(_) => None,
        }
    } else {
        None
    }
}

/// What a dag argument's name lookup must produce.
pub open spec fn spec_dag_name(g: Seq<RawValue>, h: int, i: int) -> Option<Seq<char>> {
    match arg_name_bytes(g, h, i) {
        Some(b) => Some(lossy_utf8(b)),
        None => None,
    }
}

/// The elements a list traversal starting at index `i` yields: one decoded
/// element per index, stopping at the first index whose access reports
/// `None` — which, over a well-formed graph, happens only at or past the
/// true length or on a decode failure, never on a hole in the middle.
pub open spec fn spec_list_from(g: Seq<RawValue>, h: int, i: int) -> Seq<InitView>
    decreases list_elems(g, h).len() - i,
{
    if i < 0 || i >= list_elems(g, h).len() {
        Seq::empty()
    } else {
        match spec_list_get(g, h, i) {
            Some(v) => seq![v] + spec_list_from(g, h, i + 1),
            None => Seq::empty(),
        }
    }
}

/// The pairs a dag traversal starting at index `i` yields: one (name, value)
/// pair per argument that has both, skipping positional arguments silently,
/// stopping where the value access reports `None`.
pub open spec fn spec_dag_pairs_from(g: Seq<RawValue>, h: int, i: int) -> Seq<
    (Seq<char>, InitView),
>
    decreases dag_args(g, h).len() - i,
{
    if i < 0 || i >= dag_args(g, h).len() {
        Seq::empty()
    } else {
        match (spec_dag_get(g, h, i), arg_name_bytes(g, h, i)) {
            (Some(v), Some(b)) => seq![(lossy_utf8(b), v)] + spec_dag_pairs_from(g, h, i + 1),
            (Some(_), None) => spec_dag_pairs_from(g, h, i + 1),
            (None, _) => Seq::empty(),
        }
    }
}

impl TypedInit {
    /// Decodes the foreign value behind `init` into an owned tagged value.
    ///
    /// Queries the foreign type tag and dispatches on it; a bit outside
    /// {0, 1} fails with `InvalidBitRange`, an empty bit array with
    /// `NullPointer`, an unknown tag decodes to `Invalid`, and every other
    /// tag succeeds. Every transient foreign buffer the call acquires — one
    /// for a bit array or a string, none otherwise — is released exactly
    /// once before the call returns.
    #[verifier::loop_isolation(false)]
    pub fn from_raw(db: &mut ForeignGraph, init: InitHandle) -> (r: Result<
        TypedInit,
        TableGenError,
    >)
        requires
            old(db).wf(),
            init < old(db).graph().len(),
            old(db).live_buffers() < usize::MAX,
        ensures
            final(db).wf(),
            final(db).graph() == old(db).graph(),
            final(db).live_buffers() == old(db).live_buffers(),
            final(db).buffers_acquired() == old(db).buffers_acquired() + crate::foreign::buffers_needed(
                old(db).graph()[init as int],
            ),
            final(db).buffers_freed() == old(db).buffers_freed() + crate::foreign::buffers_needed(
                old(db).graph()[init as int],
            ),
            result_view(r) == spec_decode(old(db).graph(), init as int),
    {
        let t = db.get_type_tag(init);

        match t {
            RecTyKind::Bit => {
                let bit = db.get_bit_value(init);
                if bit == 0 || bit == 1 {
                    Ok(TypedInit::Bit(bit))
                } else {
                    Err(TableGenError::InvalidBitRange)
                }
            },
            RecTyKind::Bits => {
                let cbits = db.get_bits_value(init);
                let mut bits: Vec<i8> = Vec::new();
                let n = cbits.len();
                let mut i: usize = 0;
                while i < n
                    invariant
                        n == cbits@.len(),
                        i <= n,
                        bits@ == cbits@.subrange(0, i as int),
                    decreases n - i,
                {
                    bits.push(cbits[i]);
                    assert(bits@ =~= cbits@.subrange(0, i + 1));
                    i += 1;
                }
                assert(bits@ =~= cbits@);
                db.free_bit_buffer(cbits);
                if bits.len() == 0 {
                    Err(TableGenError::NullPointer)
                } else {
                    Ok(TypedInit::Bits(bits))
                }
            },
            RecTyKind::Dag => Ok(TypedInit::Dag(DagInit::from_raw(init))),
            RecTyKind::Int => {
                let int_value = db.get_int_value(init);
                Ok(TypedInit::Int(int_value))
            },
            RecTyKind::List => Ok(TypedInit::List(ListInit::from_raw(init))),
            RecTyKind::Record => Ok(
                TypedInit::Record(Record::from_raw(db.get_record_reference(init))),
            ),
            RecTyKind::String => {
                let cstr = db.get_new_string(init);
                let s = lossy_string(&cstr);
                db.free_string(cstr);
                Ok(TypedInit::String(s))
            },
            RecTyKind::Unknown => Ok(TypedInit::Invalid),
        }
    }
}

impl TypedInit {
    /// Borrows the bit behind a `Bit` value, without committing to ownership.
    pub fn as_bit(&self) -> (r: Option<&i8>)
        ensures
            r is Some <==> self is Bit,
            r matches Some(b) ==> *self matches TypedInit::Bit(v) && *b == v,
    {
        match self {
            TypedInit::Bit(v) => Some(v),
            _ => None,
        }
    }

    /// Borrows the bit array behind a `Bits` value.
    pub fn as_bits(&self) -> (r: Option<&Vec<i8>>)
        ensures
            r is Some <==> self is Bits,
            r matches Some(b) ==> *self matches TypedInit::Bits(v) && *b == v,
    {
        match self {
            TypedInit::Bits(v) => Some(v),
            _ => None,
        }
    }

    /// Borrows the character data behind a `Code` value.
    pub fn as_code(&self) -> (r: Option<&String>)
        ensures
            r is Some <==> self is Code,
            r matches Some(b) ==> *self matches TypedInit::Code(v) && *b == v,
    {
        match self {
            TypedInit::Code(v) => Some(v),
            _ => None,
        }
    }

    /// Borrows the integer behind an `Int` value.
    pub fn as_int(&self) -> (r: Option<&i64>)
        ensures
            r is Some <==> self is Int,
            r matches Some(b) ==> *self matches TypedInit::Int(v) && *b == v,
    {
        match self {
            TypedInit::Int(v) => Some(v),
            _ => None,
        }
    }

    /// Borrows the character data behind a `String` value.
    pub fn as_string(&self) -> (r: Option<&String>)
        ensures
            r is Some <==> self is String,
            r matches Some(b) ==> *self matches TypedInit::String(v) && *b == v,
    {
        match self {
            TypedInit::String(v) => Some(v),
            _ => None,
        }
    }

    /// Borrows the list view behind a `List` value.
    pub fn as_list(&self) -> (r: Option<&ListInit>)
        ensures
            r is Some <==> self is List,
            r matches Some(b) ==> *self matches TypedInit::List(v) && *b == v,
    {
        match self {
            TypedInit::List(v) => Some(v),
            _ => None,
        }
    }

    /// Borrows the dag view behind a `Dag` value.
    pub fn as_dag(&self) -> (r: Option<&DagInit>)
        ensures
            r is Some <==> self is Dag,
            r matches Some(b) ==> *self matches TypedInit::Dag(v) && *b == v,
    {
        match self {
            TypedInit::Dag(v) => Some(v),
            _ => None,
        }
    }

    /// Borrows the record reference behind a `Record` value.
    pub fn as_def(&self) -> (r: Option<&Record>)
        ensures
            r is Some <==> self is Record,
            r matches Some(b) ==> *self matches TypedInit::Record(v) && *b == v,
    {
        match self {
            TypedInit::Record(v) => Some(v),
            _ => None,
        }
    }

    /// Narrows to the bit behind a `Bit` value; any other variant fails with
    /// `IncorrectInitType` carrying the rejected value.
    pub fn project_bit(self) -> (r: Result<i8, TableGenError>)
        ensures
            self matches TypedInit::Bit(v) ==> r == Ok::<i8, TableGenError>(v),
            !(self is Bit) ==> r == Err::<i8, TableGenError>(
                TableGenError::IncorrectInitType(self),
            ),
    {
        match self {
            TypedInit::Bit(v) => Ok(v),
            other => Err(TableGenError::IncorrectInitType(other)),
        }
    }

    /// Narrows to the bit array behind a `Bits` value; any other variant
    /// fails with `IncorrectInitType` carrying the rejected value.
    pub fn project_bits(self) -> (r: Result<Vec<i8>, TableGenError>)
        ensures
            self matches TypedInit::Bits(v) ==> r == Ok::<Vec<i8>, TableGenError>(v),
            !(self is Bits) ==> r == Err::<Vec<i8>, TableGenError>(
                TableGenError::IncorrectInitType(self),
            ),
    {
        match self {
            TypedInit::Bits(v) => Ok(v),
            other => Err(TableGenError::IncorrectInitType(other)),
        }
    }

    /// Narrows to the integer behind an `Int` value; any other variant fails
    /// with `IncorrectInitType` carrying the rejected value.
    pub fn project_int(self) -> (r: Result<i64, TableGenError>)
        ensures
            self matches TypedInit::Int(v) ==> r == Ok::<i64, TableGenError>(v),
            !(self is Int) ==> r == Err::<i64, TableGenError>(
                TableGenError::IncorrectInitType(self),
            ),
    {
        match self {
            TypedInit::Int(v) => Ok(v),
            other => Err(TableGenError::IncorrectInitType(other)),
        }
    }

    /// Narrows to the character data behind a `String` or `Code` value —
    /// both carry character data; any other variant fails with
    /// `IncorrectInitType` carrying the rejected value.
    pub fn project_string(self) -> (r: Result<String, TableGenError>)
        ensures
            self matches TypedInit::String(v) ==> r == Ok::<String, TableGenError>(v),
            self matches TypedInit::Code(v) ==> r == Ok::<String, TableGenError>(v),
            !(self is String) && !(self is Code) ==> r == Err::<String, TableGenError>(
                TableGenError::IncorrectInitType(self),
            ),
    {
        match self {
            TypedInit::String(v) => Ok(v),
            TypedInit::Code(v) => Ok(v),
            other => Err(TableGenError::IncorrectInitType(other)),
        }
    }

    /// Narrows to the list view behind a `List` value; any other variant
    /// fails with `IncorrectInitType` carrying the rejected value.
    pub fn project_list(self) -> (r: Result<ListInit, TableGenError>)
        ensures
            self matches TypedInit::List(v) ==> r == Ok::<ListInit, TableGenError>(v),
            !(self is List) ==> r == Err::<ListInit, TableGenError>(
                TableGenError::IncorrectInitType(self),
            ),
    {
        match self {
            TypedInit::List(v) => Ok(v),
            other => Err(TableGenError::IncorrectInitType(other)),
        }
    }

    /// Narrows to the dag view behind a `Dag` value; any other variant fails
    /// with `IncorrectInitType` carrying the rejected value.
    pub fn project_dag(self) -> (r: Result<DagInit, TableGenError>)
        ensures
            self matches TypedInit::Dag(v) ==> r == Ok::<DagInit, TableGenError>(v),
            !(self is Dag) ==> r == Err::<DagInit, TableGenError>(
                TableGenError::IncorrectInitType(self),
            ),
    {
        match self {
            TypedInit::Dag(v) => Ok(v),
            other => Err(TableGenError::IncorrectInitType(other)),
        }
    }

    /// Narrows to the record reference behind a `Record` value; any other
    /// variant fails with `IncorrectInitType` carrying the rejected value.
    pub fn project_record(self) -> (r: Result<Record, TableGenError>)
        ensures
            self matches TypedInit::Record(v) ==> r == Ok::<Record, TableGenError>(v),
            !(self is Record) ==> r == Err::<Record, TableGenError>(
                TableGenError::IncorrectInitType(self),
            ),
    {
        match self {
            TypedInit::Record(v) => Ok(v),
            other => Err(TableGenError::IncorrectInitType(other)),
        }
    }
}

/// A non-owning view over a foreign dag node: an operator applied to
/// ordered, optionally named arguments. It holds only the foreign handle and
/// re-queries the foreign layer on every access.
#[derive(Debug, PartialEq)]
pub struct DagInit {
    /// The foreign handle of the dag value.
    pub raw: InitHandle,
}

/// A non-owning view over a foreign ordered list. It holds only the foreign
/// handle and re-queries the foreign layer on every access.
#[derive(Debug, PartialEq)]
pub struct ListInit {
    /// The foreign handle of the list value.
    pub raw: InitHandle,
}

impl DagInit {
    /// The handle points into the graph, at a dag value.
    pub open spec fn wf(&self, g: Seq<RawValue>) -> bool {
        self.raw < g.len() && g[self.raw as int] is Dag
    }

    /// Wraps a foreign dag handle.
    pub fn from_raw(val: InitHandle) -> (r: DagInit)
        ensures
            r.raw == val,
    {
        DagInit { raw: val }
    }

    /// A traversal over this node's (name, value) pairs, starting at the
    /// first argument.
    pub fn args(&self) -> (r: DagIter<'_>)
        ensures
            r.spec_dag() == *self,
            r.spec_index() == 0,
    {
        DagIter { dag: self, index: 0 }
    }

    /// The argument count, queried from the foreign layer on every call.
    pub fn num_args(&self, db: &ForeignGraph) -> (r: usize)
        requires
            self.wf(db.graph()),
        ensures
            r == dag_args(db.graph(), self.raw as int).len(),
    {
        db.dag_arg_count(self.raw)
    }

    /// The name of argument `index`, lossily converted; `None` for a
    /// positional argument or an index past the end.
    pub fn name(&self, db: &ForeignGraph, index: usize) -> (r: Option<String>)
        requires
            self.wf(db.graph()),
        ensures
            option_string_view(r) == spec_dag_name(db.graph(), self.raw as int, index as int),
    {
        let value = db.dag_arg_name(self.raw, index);
        match value {
            Some(bytes) => Some(lossy_string(&bytes)),
            None => None,
        }
    }

    /// The decoded value of argument `index`; `None` past the end (the
    /// foreign call reports null there) or where the element fails to
    /// decode.
    pub fn get(&self, db: &mut ForeignGraph, index: usize) -> (r: Option<TypedInit>)
        requires
            old(db).wf(),
            self.wf(old(db).graph()),
            old(db).live_buffers() < usize::MAX,
        ensures
            final(db).wf(),
            final(db).graph() == old(db).graph(),
            final(db).live_buffers() == old(db).live_buffers(),
            final(db).buffers_acquired() - old(db).buffers_acquired() == final(db).buffers_freed()
                - old(db).buffers_freed(),
            option_view(r) == spec_dag_get(old(db).graph(), self.raw as int, index as int),
    {
        let value = db.dag_arg_get(self.raw, index);
        match value {
            Some(handle) => {
                proof {
                    assert(crate::foreign::raw_wf(db.graph(), db.graph()[self.raw as int]));
                    assert(dag_args(db.graph(), self.raw as int)[index as int].value
                        < db.graph().len());
                }
                match TypedInit::from_raw(db, handle) {
                    Ok(v) => Some(v),
                    Err(_) => None,
                }
            },
            None => None,
        }
    }

    /// The unchecked-index variant of `get`: the caller has already
    /// validated `index` against `num_args`, so the foreign bounds report is
    /// skipped and the argument is decoded directly.
    pub fn get_unchecked(&self, db: &mut ForeignGraph, index: usize) -> (r: Option<TypedInit>)
        requires
            old(db).wf(),
            self.wf(old(db).graph()),
            old(db).live_buffers() < usize::MAX,
            index < dag_args(old(db).graph(), self.raw as int).len(),
        ensures
            final(db).wf(),
            final(db).graph() == old(db).graph(),
            final(db).live_buffers() == old(db).live_buffers(),
            final(db).buffers_acquired() - old(db).buffers_acquired() == final(db).buffers_freed()
                - old(db).buffers_freed(),
            option_view(r) == spec_dag_get(old(db).graph(), self.raw as int, index as int),
    {
        let handle = db.dag_arg_get_unchecked(self.raw, index);
        proof {
            assert(crate::foreign::raw_wf(db.graph(), db.graph()[self.raw as int]));
            assert(dag_args(db.graph(), self.raw as int)[index as int].value < db.graph().len());
        }
        match TypedInit::from_raw(db, handle) {
            Ok(v) => Some(v),
            Err(_) => None,
        }
    }
}

/// A lazy traversal over a dag node's named arguments, yielding (name,
/// value) pairs one at a time; arguments with a value but no name are
/// skipped silently and do not end the traversal.
#[derive(Debug, Clone)]
pub struct DagIter<'a> {
    dag: &'a DagInit,
    index: usize,
}

impl<'a> DagIter<'a> {
    /// The dag this traversal walks.
    pub closed spec fn spec_dag(&self) -> DagInit {
        *self.dag
    }

    /// The next argument index to visit.
    pub closed spec fn spec_index(&self) -> int {
        self.index as int
    }

    /// Yields the next (name, value) pair: at each index it fetches both the
    /// decoded value and the name, yields only where both are present, skips
    /// positional arguments, and ends where the value access reports `None`.
    /// The cursor advances on every call — past the yielded pair, or just
    /// past the index whose value access reported `None` — so a caller may
    /// step past a failing argument by calling again.
    #[verifier::loop_isolation(false)]
    pub fn next(&mut self, db: &mut ForeignGraph) -> (r: Option<(String, TypedInit)>)
        requires
            old(db).wf(),
            old(self).spec_dag().wf(old(db).graph()),
            old(db).live_buffers() < usize::MAX,
            old(self).spec_index() < usize::MAX,
            dag_args(old(db).graph(), old(self).spec_dag().raw as int).len() < usize::MAX,
        ensures
            final(db).wf(),
            final(db).graph() == old(db).graph(),
            final(db).live_buffers() == old(db).live_buffers(),
            final(db).buffers_acquired() - old(db).buffers_acquired() == final(db).buffers_freed()
                - old(db).buffers_freed(),
            final(self).spec_dag() == old(self).spec_dag(),
            final(self).spec_index() >= old(self).spec_index() + 1,
            ({
                let g = old(db).graph();
                let h = old(self).spec_dag().raw as int;
                let ps = spec_dag_pairs_from(g, h, old(self).spec_index());
                match r {
                    Some(p) => ps.len() > 0 && p.0@ == ps[0].0 && p.1@ == ps[0].1
                        && final(self).spec_index() <= dag_args(g, h).len()
                        && spec_dag_pairs_from(g, h, final(self).spec_index()) == ps.skip(1),
                    None => ps.len() == 0 && spec_dag_get(g, h, final(self).spec_index() - 1)
                        is None && forall|k: int|
                        old(self).spec_index() <= k < final(self).spec_index() - 1
                            ==> #[trigger] spec_dag_get(g, h, k) is Some && arg_name_bytes(
                            g,
                            h,
                            k,
                        ) is None,
                }
            }),
    {
        let ghost g = old(db).graph();
        let ghost h = old(self).spec_dag().raw as int;
        let m = self.dag.num_args(db);
        loop
            invariant
                db.wf(),
                db.graph() == g,
                db.live_buffers() == old(db).live_buffers(),
                db.buffers_acquired() - old(db).buffers_acquired() == db.buffers_freed() - old(
                    db,
                ).buffers_freed(),
                self.dag == old(self).spec_dag(),
                self.dag.wf(g),
                m == dag_args(g, h).len(),
                self.index >= old(self).spec_index(),
                self.index == old(self).spec_index() || self.index as int <= m as int,
                forall|k: int|
                    old(self).spec_index() <= k < self.index ==> #[trigger] spec_dag_get(g, h, k)
                        is Some && arg_name_bytes(g, h, k) is None,
                spec_dag_pairs_from(g, h, self.index as int) == spec_dag_pairs_from(
                    g,
                    h,
                    old(self).spec_index(),
                ),
            decreases m - self.index,
        {
            let value = self.dag.get(db, self.index);
            let name = self.dag.name(db, self.index);
            match value {
                None => {
                    self.index += 1;
                    return None;
                },
                Some(v) => {
                    assert((self.index as int) < m);
                    self.index += 1;
                    match name {
                        Some(nm) => {
                            return Some((nm, v));
                        },
                        None => {
                            // A positional argument: skipped silently.
                        },
                    }
                },
            }
        }
    }
}

impl ListInit {
    /// The handle points into the graph, at a list value.
    pub open spec fn wf(&self, g: Seq<RawValue>) -> bool {
        self.raw < g.len() && g[self.raw as int] is List
    }

    /// Wraps a foreign list handle.
    pub fn from_raw(val: InitHandle) -> (r: ListInit)
        ensures
            r.raw == val,
    {
        ListInit { raw: val }
    }

    /// A traversal over this list's decoded elements, starting at index 0.
    pub fn iter(&self) -> (r: ListIter<'_>)
        ensures
            r.spec_list() == *self,
            r.spec_index() == 0,
    {
        ListIter { list: self, index: 0 }
    }

    /// The element count, queried from the foreign layer on every call.
    pub fn len(&self, db: &ForeignGraph) -> (r: usize)
        requires
            self.wf(db.graph()),
        ensures
            r == list_elems(db.graph(), self.raw as int).len(),
    {
        db.list_length(self.raw)
    }

    /// The decoded element at `index`; `None` past the end (the foreign call
    /// reports null there) or where the element fails to decode.
    pub fn get(&self, db: &mut ForeignGraph, index: usize) -> (r: Option<TypedInit>)
        requires
            old(db).wf(),
            self.wf(old(db).graph()),
            old(db).live_buffers() < usize::MAX,
        ensures
            final(db).wf(),
            final(db).graph() == old(db).graph(),
            final(db).live_buffers() == old(db).live_buffers(),
            final(db).buffers_acquired() - old(db).buffers_acquired() == final(db).buffers_freed()
                - old(db).buffers_freed(),
            option_view(r) == spec_list_get(old(db).graph(), self.raw as int, index as int),
    {
        let value = db.list_get(self.raw, index);
        match value {
            Some(handle) => {
                proof {
                    assert(crate::foreign::raw_wf(db.graph(), db.graph()[self.raw as int]));
                    assert(list_elems(db.graph(), self.raw as int)[index as int]
                        < db.graph().len());
                }
                match TypedInit::from_raw(db, handle) {
                    Ok(v) => Some(v),
                    Err(_) => None,
                }
            },
            None => None,
        }
    }

    /// The unchecked-index variant of `get`: the caller has already
    /// validated `index` against `len`, so the foreign bounds report is
    /// skipped and the element is decoded directly.
    pub fn get_unchecked(&self, db: &mut ForeignGraph, index: usize) -> (r: Option<TypedInit>)
        requires
            old(db).wf(),
            self.wf(old(db).graph()),
            old(db).live_buffers() < usize::MAX,
            index < list_elems(old(db).graph(), self.raw as int).len(),
        ensures
            final(db).wf(),
            final(db).graph() == old(db).graph(),
            final(db).live_buffers() == old(db).live_buffers(),
            final(db).buffers_acquired() - old(db).buffers_acquired() == final(db).buffers_freed()
                - old(db).buffers_freed(),
            option_view(r) == spec_list_get(old(db).graph(), self.raw as int, index as int),
    {
        let handle = db.list_get_unchecked(self.raw, index);
        proof {
            assert(crate::foreign::raw_wf(db.graph(), db.graph()[self.raw as int]));
            assert(list_elems(db.graph(), self.raw as int)[index as int] < db.graph().len());
        }
        match TypedInit::from_raw(db, handle) {
            Ok(v) => Some(v),
            Err(_) => None,
        }
    }
}

/// A lazy traversal over a list's decoded elements, in index order.
#[derive(Clone)]
pub struct ListIter<'a> {
    list: &'a ListInit,
    index: usize,
}

impl<'a> ListIter<'a> {
    /// The list this traversal walks.
    pub closed spec fn spec_list(&self) -> ListInit {
        *self.list
    }

    /// The next element index to visit.
    pub closed spec fn spec_index(&self) -> int {
        self.index as int
    }

    /// Yields the next decoded element, or `None` at the end of the list or
    /// on a decode failure — which, by construction, happens only at or past
    /// the true length over elements that decode. The cursor advances on
    /// every call, whether or not an element came out, so a caller may step
    /// past a failing element by calling again.
    pub fn next(&mut self, db: &mut ForeignGraph) -> (r: Option<TypedInit>)
        requires
            old(db).wf(),
            old(self).spec_list().wf(old(db).graph()),
            old(db).live_buffers() < usize::MAX,
            old(self).spec_index() < usize::MAX,
        ensures
            final(db).wf(),
            final(db).graph() == old(db).graph(),
            final(db).live_buffers() == old(db).live_buffers(),
            final(db).buffers_acquired() - old(db).buffers_acquired() == final(db).buffers_freed()
                - old(db).buffers_freed(),
            final(self).spec_list() == old(self).spec_list(),
            final(self).spec_index() == old(self).spec_index() + 1,
            option_view(r) == spec_list_get(
                old(db).graph(),
                old(self).spec_list().raw as int,
                old(self).spec_index(),
            ),
    {
        let value = self.list.get(db, self.index);
        self.index += 1;
        value
    }
}

} // verus!
