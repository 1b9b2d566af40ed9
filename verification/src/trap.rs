//! Trap metadata produced alongside the generated code.
//!
//! The trap table maps native code byte offsets to typed fault reasons;
//! the runtime's fault handler consults it when a guarded instruction
//! faults. Offsets are discovered monotonically during emission and are
//! never removed; inserting an offset twice keeps the latest entry.

use vstd::prelude::*;

verus! {

/// Typed reason for a guest-visible fault at run time.
#[derive(Clone, Copy, Debug, PartialEq, Eq, Structural)]
pub enum TrapCode {
    StackOverflow,
    HeapAccessOutOfBounds,
    HeapMisaligned,
    TableAccessOutOfBounds,
    IndirectCallToNull,
    BadSignature,
    IntegerOverflow,
    IntegerDivisionByZero,
    BadConversionToInteger,
    UnreachableCodeReached,
    UnalignedAtomic,
}

/// Location of an instruction in the source bytecode, as a byte offset
/// into the module.
#[derive(Clone, Copy, Debug, PartialEq, Eq, Structural)]
pub struct SourceLoc(pub u32);

impl SourceLoc {
    /// A source location at the given module byte offset.
    pub fn new(bits: u32) -> (r: SourceLoc)
        ensures
            r == (SourceLoc(bits)),
    {
        SourceLoc(bits)
    }
}

/// Byte offset into one function's native code.
pub type CodeOffset = u32;

/// Information about one trapping offset of the generated code.
#[derive(Clone, Copy, Debug, PartialEq, Eq, Structural)]
pub struct TrapInformation {
    /// The offset of the trapping instruction in native code, relative
    /// to the beginning of the function.
    pub code_offset: CodeOffset,
    /// Location of the trapping instruction in the source bytecode.
    pub source_loc: SourceLoc,
    /// Code of the trap.
    pub trap_code: TrapCode,
}

/// Entries are strictly ordered by code offset.
pub open spec fn tt_sorted(s: Seq<TrapInformation>) -> bool {
    forall|i: int, j: int|
        0 <= i < j < s.len() ==> (#[trigger] s[i]).code_offset < (#[trigger] s[j]).code_offset
}

/// Insert an entry into an ordered entry sequence, replacing an entry
/// with the same offset.
pub open spec fn tt_insert(s: Seq<TrapInformation>, e: TrapInformation) -> Seq<TrapInformation>
    decreases s.len(),
{
    if s.len() == 0 {
        seq![e]
    } else if e.code_offset < s[0].code_offset {
        seq![e] + s
    } else if e.code_offset == s[0].code_offset {
        seq![e] + s.skip(1)
    } else {
        seq![s[0]] + tt_insert(s.skip(1), e)
    }
}

/// The entry recorded for `off`, if any.
pub open spec fn tt_lookup(s: Seq<TrapInformation>, off: u32) -> Option<TrapInformation>
    decreases s.len(),
{
    if s.len() == 0 {
        None
    } else if s[0].code_offset == off {
        Some(s[0])
    } else {
        tt_lookup(s.skip(1), off)
    }
}

/// Inserting preserves the strict offset order.
pub proof fn lemma_tt_insert_sorted(s: Seq<TrapInformation>, e: TrapInformation)
    requires
        tt_sorted(s),
    ensures
        tt_sorted(tt_insert(s, e)),
    decreases s.len(),
{
    if s.len() == 0 {
    } else if e.code_offset < s[0].code_offset {
    } else if e.code_offset == s[0].code_offset {
    } else {
        assert(tt_sorted(s.skip(1)));
        lemma_tt_insert_sorted(s.skip(1), e);
        lemma_tt_insert_head_bound(s.skip(1), e);
        let r = seq![s[0]] + tt_insert(s.skip(1), e);
        assert forall|i: int, j: int| 0 <= i < j < r.len() implies (#[trigger] r[i]).code_offset
            < (#[trigger] r[j]).code_offset by {
            if i > 0 {
                assert(r[i] == tt_insert(s.skip(1), e)[i - 1]);
                assert(r[j] == tt_insert(s.skip(1), e)[j - 1]);
            }
        }
    }
}

/// Every entry of the inserted sequence is the new entry or one of the
/// old ones, so a lower bound on all of them persists.
proof fn lemma_tt_insert_head_bound(s: Seq<TrapInformation>, e: TrapInformation)
    ensures
        forall|k: int|
            0 <= k < tt_insert(s, e).len() ==> (#[trigger] tt_insert(s, e)[k]).code_offset
                == e.code_offset || exists|m: int|
                0 <= m < s.len() && s[m].code_offset == (#[trigger] tt_insert(s, e)[k]).code_offset,
    decreases s.len(),
{
    if s.len() == 0 {
    } else if e.code_offset < s[0].code_offset {
    } else if e.code_offset == s[0].code_offset {
        assert forall|k: int| 0 <= k < tt_insert(s, e).len() implies (#[trigger] tt_insert(
            s,
            e,
        )[k]).code_offset == e.code_offset || exists|m: int|
            0 <= m < s.len() && s[m].code_offset == tt_insert(s, e)[k].code_offset by {
            if k > 0 {
                assert(tt_insert(s, e)[k] == s.skip(1)[k - 1]);
                assert(s[k] == s.skip(1)[k - 1]);
                assert(s[k].code_offset == tt_insert(s, e)[k].code_offset);
            }
        }
    } else {
        lemma_tt_insert_head_bound(s.skip(1), e);
        assert forall|k: int| 0 <= k < tt_insert(s, e).len() implies (#[trigger] tt_insert(
            s,
            e,
        )[k]).code_offset == e.code_offset || exists|m: int|
            0 <= m < s.len() && s[m].code_offset == tt_insert(s, e)[k].code_offset by {
            if k > 0 {
                let x = tt_insert(s.skip(1), e)[k - 1];
                assert(tt_insert(s, e)[k] == x);
                if x.code_offset != e.code_offset {
                    let m = choose|m: int|
                        0 <= m < s.skip(1).len() && s.skip(1)[m].code_offset == x.code_offset;
                    assert(s[m + 1] == s.skip(1)[m]);
                }
            } else {
                assert(tt_insert(s, e)[0] == s[0]);
            }
        }
    }
}

/// What `tt_lookup` returns after an insertion: the new entry at its
/// own offset, and the old answer everywhere else.
pub proof fn lemma_tt_insert_lookup(s: Seq<TrapInformation>, e: TrapInformation, off: u32)
    requires
        tt_sorted(s),
    ensures
        tt_lookup(tt_insert(s, e), off) == if off == e.code_offset {
            Some(e)
        } else {
            tt_lookup(s, off)
        },
    decreases s.len(),
{
    if s.len() == 0 {
        let r = tt_insert(s, e);
        assert(r == seq![e]);
        assert(r.skip(1) =~= Seq::<TrapInformation>::empty());
        assert(tt_lookup(r.skip(1), off) is None);
        assert(tt_lookup(r, off) == if off == e.code_offset {
            Some(e)
        } else {
            tt_lookup(s, off)
        });
    } else if e.code_offset < s[0].code_offset {
        let r = seq![e] + s;
        assert(r[0] == e);
        assert(r.skip(1) =~= s);
        assert(tt_lookup(r, off) == if off == e.code_offset {
            Some(e)
        } else {
            tt_lookup(s, off)
        });
        assert(tt_insert(s, e) == r);
    } else if e.code_offset == s[0].code_offset {
        let r = seq![e] + s.skip(1);
        assert(r[0] == e);
        assert(r.skip(1) =~= s.skip(1));
        if off != e.code_offset {
            assert(tt_lookup(s, off) == tt_lookup(s.skip(1), off));
        }
    } else {
        assert(tt_sorted(s.skip(1)));
        lemma_tt_insert_lookup(s.skip(1), e, off);
        let r = seq![s[0]] + tt_insert(s.skip(1), e);
        assert(r[0] == s[0]);
        assert(r.skip(1) =~= tt_insert(s.skip(1), e));
        if off == s[0].code_offset {
            assert(off != e.code_offset);
            assert(tt_lookup(r, off) == Some(s[0]));
        }
    }
}

/// Splitting an insertion across a prefix whose offsets all lie below
/// the new entry's offset.
proof fn lemma_tt_insert_split(s: Seq<TrapInformation>, e: TrapInformation, i: int)
    requires
        0 <= i <= s.len(),
        forall|j: int| 0 <= j < i ==> (#[trigger] s[j]).code_offset < e.code_offset,
    ensures
        tt_insert(s, e) == s.take(i) + tt_insert(s.skip(i), e),
    decreases i,
{
    if i == 0 {
        assert(s.skip(0) =~= s);
        assert(s.take(0) + tt_insert(s, e) =~= tt_insert(s, e));
    } else {
        assert(s[0].code_offset < e.code_offset);
        lemma_tt_insert_split(s.skip(1), e, i - 1);
        assert(tt_insert(s, e) == seq![s[0]] + tt_insert(s.skip(1), e));
        assert(s.skip(1).skip(i - 1) =~= s.skip(i));
        assert(seq![s[0]] + s.skip(1).take(i - 1) =~= s.take(i));
        assert(seq![s[0]] + (s.skip(1).take(i - 1) + tt_insert(s.skip(i), e)) =~= (seq![s[0]]
            + s.skip(1).take(i - 1)) + tt_insert(s.skip(i), e));
    }
}

/// The trap table of one function under compilation: an offset-ordered
/// collection of trap records, built incrementally during emission.
pub struct TrapTable {
    entries: Vec<TrapInformation>,
}

impl View for TrapTable {
    type V = Seq<TrapInformation>;

    closed spec fn view(&self) -> Seq<TrapInformation> {
        self.entries@
    }
}

impl TrapTable {
    /// An empty trap table.
    pub fn new() -> (r: TrapTable)
        ensures
            r@ == Seq::<TrapInformation>::empty(),
            tt_sorted(r@),
    {
        TrapTable { entries: Vec::new() }
    }

    /// Record `trap_code` for the native offset `offset`, replacing any
    /// earlier entry at the same offset.
    #[verifier::loop_isolation(false)]
    pub fn insert(&mut self, offset: u32, source_loc: SourceLoc, trap_code: TrapCode)
        requires
            tt_sorted(old(self)@),
        ensures
            tt_sorted(final(self)@),
            final(self)@ == tt_insert(
                old(self)@,
                (TrapInformation { code_offset: offset, source_loc, trap_code }),
            ),
    {
        let e = TrapInformation { code_offset: offset, source_loc, trap_code };
        let n = self.entries.len();
        let mut i: usize = 0;
        while i < n && self.entries[i].code_offset < offset
            invariant
                i <= n,
                forall|j: int| 0 <= j < i ==> (#[trigger] self.entries@[j]).code_offset < offset,
            decreases n - i,
        {
            i = i + 1;
        }
        proof {
            lemma_tt_insert_split(self.entries@, e, i as int);
            lemma_tt_insert_sorted(old(self)@, e);
        }
        if i < n && self.entries[i].code_offset == offset {
            self.entries.set(i, e);
            proof {
                let s = old(self)@;
                assert(tt_insert(s.skip(i as int), e) == seq![e] + s.skip(i as int).skip(1));
                assert(s.skip(i as int).skip(1) =~= s.skip(i as int + 1));
                assert(s.take(i as int) + (seq![e] + s.skip(i as int + 1)) =~= s.update(
                    i as int,
                    e,
                ));
            }
        } else {
            self.entries.insert(i, e);
            proof {
                let s = old(self)@;
                if i < n {
                    assert(s.skip(i as int)[0] == s[i as int]);
                    assert(s[i as int].code_offset > offset);
                    assert(tt_insert(s.skip(i as int), e) == seq![e] + s.skip(i as int));
                } else {
                    assert(s.skip(i as int) =~= Seq::<TrapInformation>::empty());
                    assert(tt_insert(s.skip(i as int), e) == seq![e]);
                    assert(seq![e] =~= seq![e] + s.skip(i as int));
                }
                assert(s.take(i as int) + (seq![e] + s.skip(i as int)) =~= s.insert(i as int, e));
            }
        }
    }

    /// The recorded entries in offset order.
    pub fn entries(&self) -> (r: Vec<TrapInformation>)
        ensures
            r@ == self@,
    {
        let n = self.entries.len();
        let mut r: Vec<TrapInformation> = Vec::new();
        let mut i: usize = 0;
        while i < n
            invariant
                i <= n,
                n == self.entries.len(),
                r@ == self.entries@.take(i as int),
            decreases n - i,
        {
            r.push(self.entries[i]);
            proof {
                assert(r@ =~= self.entries@.take(i as int + 1));
            }
            i = i + 1;
        }
        proof {
            assert(self.entries@.take(n as int) =~= self.entries@);
        }
        r
    }
}

/// One entry of the instruction-address map: the native byte range
/// emitted for the virtual instruction at a source offset.
#[derive(Clone, Copy, Debug, PartialEq, Eq, Structural)]
pub struct InstructionAddressMap {
    /// Source bytecode offset of the instruction.
    pub srcloc: SourceLoc,
    /// Start of the emitted native byte range.
    pub code_offset: usize,
    /// Length of the emitted native byte range.
    pub code_len: usize,
}

} // verus!
