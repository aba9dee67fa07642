//! A model of the foreign record system's capability set.
//!
//! The foreign side stores a graph of runtime-tagged values and hands them
//! out through opaque handles; a handle here is an index into the graph's
//! value table. The graph is read-only for the whole compilation session.
//! Transient buffers (bit arrays, newly allocated strings) are the one
//! resource the foreign side hands over: a ledger tracks how many are
//! outstanding, so that contracts can state that every buffer a decode
//! acquires is released exactly once.

use vstd::prelude::*;
use vstd::pervasive::unreached;

verus! {

/// A handle to one foreign value: an index into the graph's value table.
pub type InitHandle = usize;

/// One argument of a foreign dag node: an optional name, stored by the
/// foreign side as a byte string, and the handle of the argument's value.
pub struct DagArg {
    /// The argument's name; `None` for a positional argument.
    pub name: Option<Vec<u8>>,
    /// The handle of the argument's value.
    pub value: InitHandle,
}

/// The raw, runtime-tagged form in which the foreign system stores one value.
pub enum RawValue {
    /// A single bit stored as a small integer; a corrupted or unsupported
    /// encoding may leave it outside {0, 1}.
    Bit(i8),
    /// A packed bit array, handed out for decoding as a transient buffer.
    Bits(Vec<i8>),
    /// A 64-bit signed integer.
    Int(i64),
    /// An ordered list of element handles.
    List(Vec<InitHandle>),
    /// An operator node: ordered, optionally named argument handles.
    Dag(Vec<DagArg>),
    /// A reference to another foreign record.
    Def(usize),
    /// A byte string, not necessarily valid UTF-8, handed out for decoding
    /// as a newly allocated transient buffer.
    Str(Vec<u8>),
    /// A value whose runtime type tag this decoder version does not know.
    Unknown,
}

/// The runtime type tag the foreign system reports for a value.
pub enum RecTyKind {
    Bit,
    Bits,
    Dag,
    Int,
    List,
    Record,
    String,
    Unknown,
}

/// The tag a foreign value reports.
pub open spec fn tag_of(v: RawValue) -> RecTyKind {
    match v {
        RawValue::Bit(_) => RecTyKind::Bit,
        RawValue::Bits(_) => RecTyKind::Bits,
        RawValue::Int(_) => RecTyKind::Int,
        RawValue::List(_) => RecTyKind::List,
        RawValue::Dag(_) => RecTyKind::Dag,
        RawValue::Def(_) => RecTyKind::Record,
        RawValue::Str(_) => RecTyKind::String,
        RawValue::Unknown => RecTyKind::Unknown,
    }
}

/// The bits behind a bits value; empty for any other value.
pub open spec fn bits_of(g: Seq<RawValue>, h: int) -> Seq<i8> {
    match g[h] {
        RawValue::Bits(v) => v@,
        _ => Seq::empty(),
    }
}

/// The bytes behind a string value; empty for any other value.
pub open spec fn str_bytes(g: Seq<RawValue>, h: int) -> Seq<u8> {
    match g[h] {
        RawValue::Str(v) => v@,
        _ => Seq::empty(),
    }
}

/// The element handles of a list value; empty for any other value.
pub open spec fn list_elems(g: Seq<RawValue>, h: int) -> Seq<InitHandle> {
    match g[h] {
        RawValue::List(es) => es@,
        _ => Seq::empty(),
    }
}

/// The arguments of a dag value; empty for any other value.
pub open spec fn dag_args(g: Seq<RawValue>, h: int) -> Seq<DagArg> {
    match g[h] {
        RawValue::Dag(args) => args@,
        _ => Seq::empty(),
    }
}

/// The name bytes of dag argument `i`; `None` for a positional argument or
/// past the end.
pub open spec fn arg_name_bytes(g: Seq<RawValue>, h: int, i: int) -> Option<Seq<u8>> {
    if 0 <= i < dag_args(g, h).len() {
        match dag_args(g, h)[i].name {
            Option::Some(b) => Option::Some(b@),
            Option::None => Option::None,
        }
    } else {
        Option::None
    }
}

/// How many transient foreign buffers decoding this value acquires.
pub open spec fn buffers_needed(v: RawValue) -> nat {
    match v {
        RawValue::Bits(_) => 1,
        RawValue::Str(_) => 1,
        _ => 0,
    }
}

/// Every handle embedded in `v` points into the graph.
pub open spec fn raw_wf(g: Seq<RawValue>, v: RawValue) -> bool {
    match v {
        RawValue::List(es) => forall|j: int| 0 <= j < es@.len() ==> (#[trigger] es@[j]) < g.len(),
        RawValue::Dag(args) => forall|j: int|
            0 <= j < args@.len() ==> (#[trigger] args@[j]).value < g.len(),
        _ => true,
    }
}

/// Every handle embedded anywhere in the graph points into the graph.
pub open spec fn graph_wf(g: Seq<RawValue>) -> bool {
    forall|i: int| 0 <= i < g.len() ==> raw_wf(g, #[trigger] g[i])
}

/// True when every handle in `es` is below `n`.
fn handles_in_range(es: &Vec<InitHandle>, n: usize) -> (r: bool)
    ensures
        r <==> forall|j: int| 0 <= j < es@.len() ==> (#[trigger] es@[j]) < n,
{
    let m = es.len();
    let mut j: usize = 0;
    while j < m
        invariant
            m == es@.len(),
            j <= m,
            forall|k: int| 0 <= k < j ==> (#[trigger] es@[k]) < n,
        decreases m - j,
    {
        if es[j] >= n {
            assert(!(es@[j as int] < n));
            return false;
        }
        j += 1;
    }
    true
}

/// True when the value handle of every argument in `args` is below `n`.
fn dag_handles_in_range(args: &Vec<DagArg>, n: usize) -> (r: bool)
    ensures
        r <==> forall|j: int| 0 <= j < args@.len() ==> (#[trigger] args@[j]).value < n,
{
    let m = args.len();
    let mut j: usize = 0;
    while j < m
        invariant
            m == args@.len(),
            j <= m,
            forall|k: int| 0 <= k < j ==> (#[trigger] args@[k]).value < n,
        decreases m - j,
    {
        if args[j].value >= n {
            assert(!(args@[j as int].value < n));
            return false;
        }
        j += 1;
    }
    true
}

/// Copies a borrowed foreign bit buffer into an owned vector.
fn copy_i8_vec(v: &Vec<i8>) -> (r: Vec<i8>)
    ensures
        r@ == v@,
{
    let n = v.len();
    let mut r: Vec<i8> = Vec::new();
    let mut i: usize = 0;
    while i < n
        invariant
            n == v@.len(),
            i <= n,
            r@ == v@.subrange(0, i as int),
        decreases n - i,
    {
        r.push(v[i]);
        assert(r@ =~= v@.subrange(0, i + 1));
        i += 1;
    }
    assert(r@ =~= v@);
    r
}

/// Copies a borrowed foreign byte string into an owned vector.
fn copy_u8_vec(v: &Vec<u8>) -> (r: Vec<u8>)
    ensures
        r@ == v@,
{
    let n = v.len();
    let mut r: Vec<u8> = Vec::new();
    let mut i: usize = 0;
    while i < n
        invariant
            n == v@.len(),
            i <= n,
            r@ == v@.subrange(0, i as int),
        decreases n - i,
    {
        r.push(v[i]);
        assert(r@ =~= v@.subrange(0, i + 1));
        i += 1;
    }
    assert(r@ =~= v@);
    r
}

/// The foreign record system as the decoder sees it: a stable, read-only
/// graph of runtime-tagged values, together with a ledger of the transient
/// buffers the foreign side has handed out and taken back.
pub struct ForeignGraph {
    values: Vec<RawValue>,
    live: usize,
    acquired: Ghost<nat>,
    freed: Ghost<nat>,
}

impl ForeignGraph {
    /// The value table.
    pub closed spec fn graph(&self) -> Seq<RawValue> {
        self.values@
    }

    /// Transient buffers outstanding right now.
    pub closed spec fn live_buffers(&self) -> nat {
        self.live as nat
    }

    /// Transient buffers handed out so far.
    pub closed spec fn buffers_acquired(&self) -> nat {
        self.acquired@
    }

    /// Transient buffers taken back so far.
    pub closed spec fn buffers_freed(&self) -> nat {
        self.freed@
    }

    /// The graph's handles all point into the graph, and the buffer ledger
    /// balances.
    pub open spec fn wf(&self) -> bool {
        &&& graph_wf(self.graph())
        &&& self.buffers_freed() + self.live_buffers() == self.buffers_acquired()
    }

    /// Builds the model of a foreign graph from its value table, checking
    /// that every embedded handle points into the table.
    pub fn new(values: Vec<RawValue>) -> (r: Option<ForeignGraph>)
        ensures
            r is Some <==> graph_wf(values@),
            r matches Some(fg) ==> fg.wf() && fg.graph() == values@ && fg.live_buffers() == 0
                && fg.buffers_acquired() == 0 && fg.buffers_freed() == 0,
    {
        let n = values.len();
        let mut i: usize = 0;
        while i < n
            invariant
                n == values@.len(),
                i <= n,
                forall|k: int| 0 <= k < i ==> raw_wf(values@, #[trigger] values@[k]),
            decreases n - i,
        {
            let ok = match &values[i] {
                RawValue::List(es) => handles_in_range(es, n),
                RawValue::Dag(args) => dag_handles_in_range(args, n),
                _ => true,
            };
            if !ok {
                assert(!raw_wf(values@, values@[i as int]));
                return None;
            }
            assert(raw_wf(values@, values@[i as int]));
            i += 1;
        }
        Some(ForeignGraph { values, live: 0, acquired: Ghost(0), freed: Ghost(0) })
    }

    /// How many transient foreign buffers are outstanding right now.
    pub fn live_buffer_count(&self) -> (r: usize)
        ensures
            r == self.live_buffers(),
    {
        self.live
    }

    /// The runtime type tag of the value behind `h`.
    pub fn get_type_tag(&self, h: InitHandle) -> (r: RecTyKind)
        requires
            h < self.graph().len(),
        ensures
            r == tag_of(self.graph()[h as int]),
    {
        match &self.values[h] {
            RawValue::Bit(_) => RecTyKind::Bit,
            RawValue::Bits(_) => RecTyKind::Bits,
            RawValue::Int(_) => RecTyKind::Int,
            RawValue::List(_) => RecTyKind::List,
            RawValue::Dag(_) => RecTyKind::Dag,
            RawValue::Def(_) => RecTyKind::Record,
            RawValue::Str(_) => RecTyKind::String,
            RawValue::Unknown => RecTyKind::Unknown,
        }
    }

    /// The small integer behind a bit value.
    pub fn get_bit_value(&self, h: InitHandle) -> (r: i8)
        requires
            h < self.graph().len(),
            self.graph()[h as int] is Bit,
        ensures
            self.graph()[h as int] == RawValue::Bit(r),
    {
        match &self.values[h] {
            RawValue::Bit(b) => *b,
            _ => unreached(),
        }
    }

    /// The integer behind an int value.
    pub fn get_int_value(&self, h: InitHandle) -> (r: i64)
        requires
            h < self.graph().len(),
            self.graph()[h as int] is Int,
        ensures
            self.graph()[h as int] == RawValue::Int(r),
    {
        match &self.values[h] {
            RawValue::Int(v) => *v,
            _ => unreached(),
        }
    }

    /// The record handle behind a record value.
    pub fn get_record_reference(&self, h: InitHandle) -> (r: usize)
        requires
            h < self.graph().len(),
            self.graph()[h as int] is Def,
        ensures
            self.graph()[h as int] == RawValue::Def(r),
    {
        match &self.values[h] {
            RawValue::Def(d) => *d,
            _ => unreached(),
        }
    }

    /// Hands out the packed bit array behind a bits value, as a transient
    /// buffer the caller must return through `free_bit_buffer`.
    pub fn get_bits_value(&mut self, h: InitHandle) -> (r: Vec<i8>)
        requires
            h < old(self).graph().len(),
            old(self).graph()[h as int] is Bits,
            old(self).live_buffers() < usize::MAX,
        ensures
            final(self).graph() == old(self).graph(),
            final(self).live_buffers() == old(self).live_buffers() + 1,
            final(self).buffers_acquired() == old(self).buffers_acquired() + 1,
            final(self).buffers_freed() == old(self).buffers_freed(),
            r@ == bits_of(old(self).graph(), h as int),
    {
        let r = match &self.values[h] {
            RawValue::Bits(v) => copy_i8_vec(v),
            _ => unreached(),
        };
        self.live = self.live + 1;
        self.acquired = Ghost(self.acquired@ + 1);
        r
    }

    /// Takes back a transient bit buffer. Dropping the vector stands for the
    /// foreign deallocation call.
    pub fn free_bit_buffer(&mut self, buffer: Vec<i8>)
        requires
            old(self).live_buffers() >= 1,
        ensures
            final(self).graph() == old(self).graph(),
            final(self).live_buffers() == old(self).live_buffers() - 1,
            final(self).buffers_acquired() == old(self).buffers_acquired(),
            final(self).buffers_freed() == old(self).buffers_freed() + 1,
    {
        let _ = buffer;
        self.live = self.live - 1;
        self.freed = Ghost(self.freed@ + 1);
    }

    /// Hands out a newly allocated copy of the byte string behind a string
    /// value, as a transient buffer the caller must return through
    /// `free_string`.
    pub fn get_new_string(&mut self, h: InitHandle) -> (r: Vec<u8>)
        requires
            h < old(self).graph().len(),
            old(self).graph()[h as int] is Str,
            old(self).live_buffers() < usize::MAX,
        ensures
            final(self).graph() == old(self).graph(),
            final(self).live_buffers() == old(self).live_buffers() + 1,
            final(self).buffers_acquired() == old(self).buffers_acquired() + 1,
            final(self).buffers_freed() == old(self).buffers_freed(),
            r@ == str_bytes(old(self).graph(), h as int),
    {
        let r = match &self.values[h] {
            RawValue::Str(v) => copy_u8_vec(v),
            _ => unreached(),
        };
        self.live = self.live + 1;
        self.acquired = Ghost(self.acquired@ + 1);
        r
    }

    /// Takes back a transient string buffer. Dropping the vector stands for
    /// the runtime's normal deallocation of such buffers.
    pub fn free_string(&mut self, buffer: Vec<u8>)
        requires
            old(self).live_buffers() >= 1,
        ensures
            final(self).graph() == old(self).graph(),
            final(self).live_buffers() == old(self).live_buffers() - 1,
            final(self).buffers_acquired() == old(self).buffers_acquired(),
            final(self).buffers_freed() == old(self).buffers_freed() + 1,
    {
        let _ = buffer;
        self.live = self.live - 1;
        self.freed = Ghost(self.freed@ + 1);
    }

    /// The element count of a list value; queried afresh on every call.
    pub fn list_length(&self, h: InitHandle) -> (r: usize)
        requires
            h < self.graph().len(),
            self.graph()[h as int] is List,
        ensures
            r == list_elems(self.graph(), h as int).len(),
    {
        match &self.values[h] {
            RawValue::List(es) => es.len(),
            _ => unreached(),
        }
    }

    /// The handle of list element `i`; `None` past the end, where the
    /// foreign call reports null.
    pub fn list_get(&self, h: InitHandle, i: usize) -> (r: Option<InitHandle>)
        requires
            h < self.graph().len(),
            self.graph()[h as int] is List,
        ensures
            i < list_elems(self.graph(), h as int).len() ==> r == Some(
                list_elems(self.graph(), h as int)[i as int],
            ),
            i >= list_elems(self.graph(), h as int).len() ==> r is None,
    {
        match &self.values[h] {
            RawValue::List(es) => {
                if i < es.len() {
                    Some(es[i])
                } else {
                    None
                }
            },
            _ => unreached(),
        }
    }

    /// The handle of list element `i`, without the foreign bounds report;
    /// the caller must already know that `i` is in range.
    pub fn list_get_unchecked(&self, h: InitHandle, i: usize) -> (r: InitHandle)
        requires
            h < self.graph().len(),
            self.graph()[h as int] is List,
            i < list_elems(self.graph(), h as int).len(),
        ensures
            r == list_elems(self.graph(), h as int)[i as int],
    {
        match &self.values[h] {
            RawValue::List(es) => es[i],
            _ => unreached(),
        }
    }

    /// The argument count of a dag value; queried afresh on every call.
    pub fn dag_arg_count(&self, h: InitHandle) -> (r: usize)
        requires
            h < self.graph().len(),
            self.graph()[h as int] is Dag,
        ensures
            r == dag_args(self.graph(), h as int).len(),
    {
        match &self.values[h] {
            RawValue::Dag(args) => args.len(),
            _ => unreached(),
        }
    }

    /// The handle of dag argument `i`'s value; `None` past the end, where
    /// the foreign call reports null.
    pub fn dag_arg_get(&self, h: InitHandle, i: usize) -> (r: Option<InitHandle>)
        requires
            h < self.graph().len(),
            self.graph()[h as int] is Dag,
        ensures
            i < dag_args(self.graph(), h as int).len() ==> r == Some(
                dag_args(self.graph(), h as int)[i as int].value,
            ),
            i >= dag_args(self.graph(), h as int).len() ==> r is None,
    {
        match &self.values[h] {
            RawValue::Dag(args) => {
                if i < args.len() {
                    Some(args[i].value)
                } else {
                    None
                }
            },
            _ => unreached(),
        }
    }

    /// The handle of dag argument `i`'s value, without the foreign bounds
    /// report; the caller must already know that `i` is in range.
    pub fn dag_arg_get_unchecked(&self, h: InitHandle, i: usize) -> (r: InitHandle)
        requires
            h < self.graph().len(),
            self.graph()[h as int] is Dag,
            i < dag_args(self.graph(), h as int).len(),
        ensures
            r == dag_args(self.graph(), h as int)[i as int].value,
    {
        match &self.values[h] {
            RawValue::Dag(args) => args[i].value,
            _ => unreached(),
        }
    }

    /// The name bytes of dag argument `i`; `None` for a positional argument
    /// or past the end, where the foreign call reports null.
    pub fn dag_arg_name(&self, h: InitHandle, i: usize) -> (r: Option<Vec<u8>>)
        requires
            h < self.graph().len(),
            self.graph()[h as int] is Dag,
        ensures
            match r {
                Some(b) => arg_name_bytes(self.graph(), h as int, i as int) == Some(b@),
                None => arg_name_bytes(self.graph(), h as int, i as int) is None,
            },
    {
        match &self.values[h] {
            RawValue::Dag(args) => {
                if i < args.len() {
                    match &args[i].name {
                        Some(b) => Some(copy_u8_vec(b)),
                        None => None,
                    }
                } else {
                    None
                }
            },
            _ => unreached(),
        }
    }
}

} // verus!
