//! The fixed-layout snapshot of a code entry: name, instruction snapshots,
//! recursively built child snapshots, computed total byte length, and the
//! declared offsets and counts.
//!
//! Children are found by scanning the full code table for entries whose
//! parent reference equals the entry's own index, in source table order,
//! and only exist from the child-supporting format revision on. The source
//! guarantees that parent links are acyclic; the builders state that as a
//! precondition and the termination measure of the recursion is derived
//! from it.

use vstd::prelude::*;

use crate::error::Error;
use crate::gamedata::CodeEntry;
use crate::gamedata::GameData;
use crate::gamedata::GmInstruction;
use crate::gamemaker::instruction::instr_refs_ok;
use crate::gamemaker::instruction::instr_snapshot_ok;
use crate::gamemaker::instruction::spec_jump_in_range;
use crate::gamemaker::instruction::Instruction;
use crate::primitives::RawArray;
use crate::primitives::RustStr;
use crate::text::decimal_string;
use crate::text::spec_decimal;

verus! {

/// The code snapshot handed across the boundary.
#[derive(Debug)]
pub struct Code<'a> {
    pub name: RustStr<'a>,
    pub instructions: RawArray<Instruction<'a>>,
    // The child array is a plain vector: the verifier only admits the
    // recursive field through the standard vector type itself.
    pub children: Vec<Code<'a>>,
    pub length: u32,
    pub start_offset: u32,
    pub argument_count: u16,
    pub local_count: u16,
}

/// The format revision from which nested code entries exist.
pub const CHILD_WAD_VERSION: u8 = 15;

/// The execution start offset of an entry, zero when the entry carries no
/// version-dependent data.
pub open spec fn spec_start_offset(entry: CodeEntry) -> u32 {
    match entry.modern_data {
        Some(modern) => modern.offset,
        None => 0,
    }
}

/// The declared argument count, zero when absent.
pub open spec fn spec_arguments_count(entry: CodeEntry) -> u16 {
    match entry.modern_data {
        Some(modern) => modern.arguments_count,
        None => 0,
    }
}

/// The declared local count, zero when absent.
pub open spec fn spec_locals_count(entry: CodeEntry) -> u16 {
    match entry.modern_data {
        Some(modern) => modern.locals_count,
        None => 0,
    }
}

/// The total encoded byte length of the first `n` instructions.
pub open spec fn spec_length_upto(instrs: Seq<GmInstruction>, n: int) -> int
    decreases n,
{
    if n <= 0 {
        0
    } else {
        spec_length_upto(instrs, n - 1) + 4 * (instrs[n - 1].spec_size4() as int)
    }
}

/// The total encoded byte length of an entry's instructions.
pub open spec fn spec_code_length(entry: CodeEntry) -> int {
    spec_length_upto(entry.instructions@, entry.instructions@.len() as int)
}

/// Prefix sums of instruction lengths are monotone.
proof fn lemma_length_upto_mono(instrs: Seq<GmInstruction>, n: int, m: int)
    requires
        0 <= n <= m,
    ensures
        spec_length_upto(instrs, n) <= spec_length_upto(instrs, m),
    decreases m,
{
    if n < m {
        lemma_length_upto_mono(instrs, n, m - 1);
    }
}

/// The length of the parent chain above entry `i`, following at most
/// `fuel` parent links; saturates instead of recursing forever on data
/// whose parent links form a cycle.
pub open spec fn spec_depth_up(data: GameData, i: int, fuel: nat) -> nat
    decreases fuel,
{
    if fuel == 0 || !(0 <= i < data.codes@.len()) {
        0
    } else {
        match data.codes@[i].spec_parent() {
            Some(parent) => if (parent as int) < data.codes@.len() {
                1 + spec_depth_up(data, parent as int, (fuel - 1) as nat)
            } else {
                0
            },
            None => 0,
        }
    }
}

/// The length of the parent chain above entry `i`.
pub open spec fn spec_depth(data: GameData, i: int) -> nat {
    spec_depth_up(data, i, data.codes@.len() as nat)
}

/// Whether the parent links of the code table form a forest. On a forest,
/// every entry's chain is one longer than its parent's; on a cycle, the
/// bounded chain length saturates equally on every member, so the
/// condition fails.
pub open spec fn parents_acyclic(data: GameData) -> bool {
    forall|j: int|
        0 <= j < data.codes@.len() ==> match (#[trigger] data.codes@[j]).spec_parent() {
            Some(parent) => (parent as int) < data.codes@.len() ==> spec_depth(data, j)
                == spec_depth(data, parent as int) + 1,
            None => true,
        }
}

/// A bounded parent chain is never longer than its fuel.
proof fn lemma_depth_up_le(data: GameData, i: int, fuel: nat)
    ensures
        spec_depth_up(data, i, fuel) <= fuel,
    decreases fuel,
{
    if fuel > 0 && 0 <= i < data.codes@.len() {
        match data.codes@[i].spec_parent() {
            Some(parent) => {
                if (parent as int) < data.codes@.len() {
                    lemma_depth_up_le(data, parent as int, (fuel - 1) as nat);
                }
            },
            None => {},
        }
    }
}

/// The indexes, among the first `n` code entries, whose parent reference
/// equals `i`, in source table order.
pub open spec fn child_indices_upto(data: GameData, i: int, n: int) -> Seq<u32>
    decreases n,
{
    if n <= 0 {
        Seq::empty()
    } else {
        let prefix = child_indices_upto(data, i, n - 1);
        if data.codes@[n - 1].spec_parent() == Some(i as u32) {
            prefix.push((n - 1) as u32)
        } else {
            prefix
        }
    }
}

/// The indexes of the code entries whose parent reference equals `i`, in
/// source table order.
pub open spec fn child_indices(data: GameData, i: int) -> Seq<u32> {
    child_indices_upto(data, i, data.codes@.len() as int)
}

/// Every collected child index lies below `n` and indeed names `i` as its
/// parent.
proof fn lemma_child_indices_upto(data: GameData, i: int, n: int)
    requires
        n <= data.codes@.len(),
        data.codes@.len() <= u32::MAX,
    ensures
        forall|k: int|
            0 <= k < child_indices_upto(data, i, n).len() ==> {
                let c = #[trigger] child_indices_upto(data, i, n)[k];
                &&& (c as int) < n
                &&& data.codes@[c as int].spec_parent() == Some(i as u32)
            },
    decreases n,
{
    if n > 0 {
        lemma_child_indices_upto(data, i, n - 1);
    }
}

/// Membership in the child scan is exact: an index below `n` is collected
/// exactly when its entry's parent reference equals `i`.
proof fn lemma_child_indices_upto_membership(data: GameData, i: int, j: int, n: int)
    requires
        0 <= j <= u32::MAX,
        n <= data.codes@.len(),
        data.codes@.len() <= u32::MAX,
    ensures
        child_indices_upto(data, i, n).contains(j as u32) <==> (j < n && data.codes@[j].spec_parent()
            == Some(i as u32)),
    decreases n,
{
    if n <= 0 {
        assert(child_indices_upto(data, i, n).len() == 0);
        assert(!child_indices_upto(data, i, n).contains(j as u32));
    } else {
        lemma_child_indices_upto_membership(data, i, j, n - 1);
        let prefix = child_indices_upto(data, i, n - 1);
        let whole = child_indices_upto(data, i, n);
        if data.codes@[n - 1].spec_parent() == Some(i as u32) {
            assert(whole == prefix.push((n - 1) as u32));
            if j < n && data.codes@[j].spec_parent() == Some(i as u32) {
                if j < n - 1 {
                    let k = choose|k: int| 0 <= k < prefix.len() && prefix[k] == j as u32;
                    assert(whole[k] == j as u32);
                } else {
                    assert(whole[whole.len() - 1] == j as u32);
                }
            }
            if whole.contains(j as u32) {
                let k = choose|k: int| 0 <= k < whole.len() && whole[k] == j as u32;
                if k < prefix.len() {
                    assert(prefix[k] == j as u32);
                }
            }
        } else {
            assert(whole == prefix);
        }
    }
}

/// The children of an entry are listed in source table order: the child
/// scan collects indexes strictly ascending, so no sorting by name or any
/// other key ever reorders them.
pub proof fn lemma_child_indices_sorted(data: GameData, i: int)
    requires
        data.codes@.len() <= u32::MAX,
    ensures
        forall|k1: int, k2: int|
            0 <= k1 < k2 < child_indices(data, i).len() ==> #[trigger] child_indices(data, i)[k1]
                < #[trigger] child_indices(data, i)[k2],
{
    lemma_child_indices_upto_sorted(data, i, data.codes@.len() as int);
}

proof fn lemma_child_indices_upto_sorted(data: GameData, i: int, n: int)
    requires
        n <= data.codes@.len(),
        data.codes@.len() <= u32::MAX,
    ensures
        forall|k1: int, k2: int|
            0 <= k1 < k2 < child_indices_upto(data, i, n).len() ==> #[trigger] child_indices_upto(
                data,
                i,
                n,
            )[k1] < #[trigger] child_indices_upto(data, i, n)[k2],
    decreases n,
{
    if n > 0 {
        lemma_child_indices_upto_sorted(data, i, n - 1);
        lemma_child_indices_upto(data, i, n - 1);
        let prefix = child_indices_upto(data, i, n - 1);
        let whole = child_indices_upto(data, i, n);
        if data.codes@[n - 1].spec_parent() == Some(i as u32) {
            assert(whole == prefix.push((n - 1) as u32));
            assert forall|k1: int, k2: int| 0 <= k1 < k2 < whole.len() implies #[trigger] whole[k1]
                < #[trigger] whole[k2] by {
                if k2 < prefix.len() {
                    assert(whole[k1] == prefix[k1] && whole[k2] == prefix[k2]);
                } else {
                    assert(whole[k1] == prefix[k1]);
                    assert((prefix[k1] as int) < n - 1);
                    assert(whole[k2] == (n - 1) as u32);
                }
            }
        } else {
            assert(whole == prefix);
        }
    }
}

/// The set of children found for entry `i` is exactly the set of code
/// entries whose parent reference equals `i`: an index is in the child
/// list precisely when its entry names `i` as parent.
pub proof fn lemma_child_indices_membership(data: GameData, i: int, j: int)
    requires
        0 <= j < data.codes@.len(),
        data.codes@.len() <= u32::MAX,
    ensures
        child_indices(data, i).contains(j as u32) <==> data.codes@[j].spec_parent() == Some(
            i as u32,
        ),
{
    lemma_child_indices_upto_membership(data, i, j, data.codes@.len() as int);
}

/// Machine limits the builders assume of one code entry: every jump
/// offset can be scaled to bytes, and the total instruction byte length
/// fits in 32 bits.
pub open spec fn code_limits_ok(entry: CodeEntry) -> bool {
    &&& forall|k: int|
        0 <= k < entry.instructions@.len() ==> spec_jump_in_range(
            #[trigger] entry.instructions@[k],
        )
    &&& spec_code_length(entry) <= u32::MAX
}

/// Machine limits the builders assume of the source data as a whole.
pub open spec fn data_limits_ok(data: GameData) -> bool {
    &&& data.codes@.len() <= u32::MAX
    &&& forall|j: int| 0 <= j < data.codes@.len() ==> code_limits_ok(#[trigger] data.codes@[j])
}

/// Whether a snapshot of entry `i` can be built: the entry exists, every
/// reference its instructions carry resolves inside the source tables,
/// and, from the child-supporting format revision on, the same holds
/// recursively of every child entry.
pub open spec fn code_build_ok(data: GameData, i: int) -> bool
    decreases data.codes@.len() - spec_depth(data, i)
        when parents_acyclic(data) && data.codes@.len() <= u32::MAX
{
    &&& 0 <= i < data.codes@.len()
    &&& (forall|k: int|
        0 <= k < data.codes@[i].instructions@.len() ==> instr_refs_ok(
            #[trigger] data.codes@[i].instructions@[k],
            data,
        ))
    &&& (data.general_info.wad_version >= CHILD_WAD_VERSION ==> {
        proof {
            lemma_code_recursion_measure(data, i);
        }
        forall|k: int|
            0 <= k < child_indices(data, i).len() ==> code_build_ok(
                data,
                #[trigger] child_indices(data, i)[k] as int,
            )
    })
}

/// Whether the snapshot tree `c` is exactly what the builders produce for
/// entry `i`: name, per-instruction snapshots, computed total byte length,
/// declared offset and counts, and — from the child-supporting format
/// revision on — one child snapshot per child entry, in source table
/// order. Below that revision the children array is empty regardless of
/// any parent references present in the source.
pub open spec fn code_snapshot_ok(c: Code, data: GameData, i: int) -> bool
    decreases data.codes@.len() - spec_depth(data, i)
        when parents_acyclic(data) && data.codes@.len() <= u32::MAX
{
    &&& 0 <= i < data.codes@.len()
    &&& {
        let entry = data.codes@[i];
        &&& c.name@ == entry.name@
        &&& c.instructions@.len() == entry.instructions@.len()
        &&& (forall|k: int|
            0 <= k < entry.instructions@.len() ==> instr_snapshot_ok(
                #[trigger] c.instructions@[k],
                entry.instructions@[k],
                data,
            ))
        &&& c.length as int == spec_code_length(entry)
        &&& c.start_offset == spec_start_offset(entry)
        &&& c.argument_count == spec_arguments_count(entry)
        &&& c.local_count == spec_locals_count(entry)
        &&& if data.general_info.wad_version >= CHILD_WAD_VERSION {
            proof {
                lemma_code_recursion_measure(data, i);
            }
            &&& c.children@.len() == child_indices(data, i).len()
            &&& (forall|k: int|
                0 <= k < child_indices(data, i).len() ==> code_snapshot_ok(
                    #[trigger] c.children@[k],
                    data,
                    child_indices(data, i)[k] as int,
                ))
        } else {
            c.children@.len() == 0
        }
    }
}

/// Under acyclic parent links, stepping from an in-range entry to one of
/// its children strictly shrinks `codes.len() - depth`, which stays
/// non-negative.
pub proof fn lemma_code_recursion_measure(data: GameData, i: int)
    requires
        parents_acyclic(data),
        data.codes@.len() <= u32::MAX,
        0 <= i < data.codes@.len(),
    ensures
        forall|k: int|
            0 <= k < child_indices(data, i).len() ==> {
                let c = #[trigger] child_indices(data, i)[k] as int;
                &&& 0 <= c < data.codes@.len()
                &&& 0 <= data.codes@.len() - spec_depth(data, c) < data.codes@.len() - spec_depth(
                    data,
                    i,
                )
            },
{
    let len = data.codes@.len() as int;
    lemma_child_indices_upto(data, i, len);
    assert forall|k: int| 0 <= k < child_indices(data, i).len() implies {
        let c = #[trigger] child_indices(data, i)[k] as int;
        &&& 0 <= c < data.codes@.len()
        &&& 0 <= data.codes@.len() - spec_depth(data, c) < data.codes@.len() - spec_depth(data, i)
    } by {
        let c = child_indices(data, i)[k] as int;
        assert(data.codes@[c].spec_parent() == Some(i as u32));
        assert(i as u32 as int == i);
        assert(spec_depth(data, c) == spec_depth(data, i) + 1);
        lemma_depth_up_le(data, c, data.codes@.len() as nat);
        lemma_depth_up_le(data, i, data.codes@.len() as nat);
    }
}

/// The message of the error reported for an out-of-range code entry
/// reference.
pub open spec fn code_err_msg(index: int) -> Seq<char> {
    "could not resolve code entry reference #"@ + spec_decimal(index)
}

impl<'a> Code<'a> {
    /// Builds the snapshot of the code entry at `code_ref`, resolving every
    /// reference through the source root and recursively building one child
    /// snapshot per child entry.
    ///
    /// Succeeds exactly when the entry exists and every reference in it —
    /// and, recursively, in its children — resolves; the error for an
    /// out-of-range entry reference names the reference.
    #[verifier::rlimit(100)]
    pub fn try_from_libgm(code_ref: u32, data: &'a GameData) -> (r: Result<Self, Error>)
        requires
            parents_acyclic(*data),
            data_limits_ok(*data),
        ensures
            r is Ok <==> code_build_ok(*data, code_ref as int),
            r is Ok ==> code_snapshot_ok(r.unwrap(), *data, code_ref as int),
            (code_ref as int) >= data.codes@.len() ==> r is Err
                && r->Err_0.message_view() == code_err_msg(code_ref as int)
                && r->Err_0.contexts_view() =~= Seq::<Seq<char>>::empty(),
        decreases data.codes@.len() - spec_depth(*data, code_ref as int),
    {
        if (code_ref as usize) >= data.codes.len() {
            let mut message = "could not resolve code entry reference #".to_owned();
            crate::text::append_str(&mut message, decimal_string(code_ref).as_str());
            return Err(Error::new(message));
        }
        let code: &CodeEntry = &data.codes[code_ref as usize];

        let (start_offset, argument_count, local_count) = match &code.modern_data {
            Some(modern) => (modern.offset, modern.arguments_count, modern.locals_count),
            None => (0u32, 0u16, 0u16),
        };

        let child_refs: Vec<u32> = find_children(code_ref, data);
        let mut children: Vec<Code<'a>> = Vec::new();
        let ghost kids = child_indices(*data, code_ref as int);
        proof {
            lemma_code_recursion_measure(*data, code_ref as int);
        }
        let mut k: usize = 0;
        while k < child_refs.len()
            invariant
                parents_acyclic(*data),
                data_limits_ok(*data),
                (code_ref as int) < data.codes@.len(),
                k <= child_refs.len(),
                data.general_info.wad_version >= CHILD_WAD_VERSION ==> child_refs@ == kids,
                data.general_info.wad_version < CHILD_WAD_VERSION ==> child_refs@.len() == 0,
                kids == child_indices(*data, code_ref as int),
                children@.len() == k,
                forall|j: int|
                    0 <= j < k as int ==> code_build_ok(*data, child_refs@[j] as int),
                forall|j: int|
                    0 <= j < k as int ==> code_snapshot_ok(
                        #[trigger] children@[j],
                        *data,
                        child_refs@[j] as int,
                    ),
            decreases child_refs@.len() - k,
        {
            proof {
                lemma_code_recursion_measure(*data, code_ref as int);
                assert(child_refs@[k as int] == child_indices(*data, code_ref as int)[k as int]);
            }
            match Code::try_from_libgm(child_refs[k], data) {
                Ok(child) => {
                    children.push(child);
                },
                Err(e) => {
                    proof {
                        assert(!code_build_ok(
                            *data,
                            child_indices(*data, code_ref as int)[k as int] as int,
                        ));
                        assert(!code_build_ok(*data, code_ref as int));
                    }
                    return Err(e);
                },
            }
            k += 1;
        }

        let instructions: Vec<Instruction<'a>> = match get_instructions(code, data) {
            Ok(instructions) => instructions,
            Err(e) => {
                proof {
                    assert(!code_build_ok(*data, code_ref as int));
                }
                return Err(e);
            },
        };
        let length: u32 = get_length(code);

        let r = Code {
            name: RustStr::from_str(code.name.as_str()),
            instructions: RawArray::from_vec(instructions),
            children,
            length,
            start_offset,
            argument_count,
            local_count,
        };
        proof {
            if data.general_info.wad_version >= CHILD_WAD_VERSION {
                assert(child_refs@ == kids);
                assert forall|j: int| 0 <= j < kids.len() implies code_build_ok(
                    *data,
                    #[trigger] kids[j] as int,
                ) by {
                    assert(code_build_ok(*data, child_refs@[j] as int));
                }
                assert forall|j: int| 0 <= j < kids.len() implies code_snapshot_ok(
                    #[trigger] r.children@[j],
                    *data,
                    kids[j] as int,
                ) by {
                    assert(code_snapshot_ok(children@[j], *data, child_refs@[j] as int));
                }
            }
            assert(code_build_ok(*data, code_ref as int));
            assert(code_snapshot_ok(r, *data, code_ref as int));
        }
        Ok(r)
    }
}

/// Snapshots every instruction of one code entry, in order. Succeeds
/// exactly when every reference carried by those instructions resolves.
fn get_instructions<'a>(code: &'a CodeEntry, data: &'a GameData) -> (r: Result<
    Vec<Instruction<'a>>,
    Error,
>)
    requires
        code_limits_ok(*code),
    ensures
        r is Ok <==> (forall|k: int|
            0 <= k < code.instructions@.len() ==> instr_refs_ok(
                #[trigger] code.instructions@[k],
                *data,
            )),
        r is Ok ==> {
            &&& r.unwrap()@.len() == code.instructions@.len()
            &&& (forall|k: int|
                0 <= k < code.instructions@.len() ==> instr_snapshot_ok(
                    #[trigger] r.unwrap()@[k],
                    code.instructions@[k],
                    *data,
                ))
        },
{
    let mut out: Vec<Instruction<'a>> = Vec::new();
    let mut k: usize = 0;
    while k < code.instructions.len()
        invariant
            code_limits_ok(*code),
            k <= code.instructions@.len(),
            out@.len() == k,
            forall|j: int|
                0 <= j < k as int ==> instr_refs_ok(#[trigger] code.instructions@[j], *data),
            forall|j: int|
                0 <= j < k as int ==> instr_snapshot_ok(
                    #[trigger] out@[j],
                    code.instructions@[j],
                    *data,
                ),
        decreases code.instructions@.len() - k,
    {
        let snapshot = Instruction::try_from_libgm(&code.instructions[k], data)?;
        out.push(snapshot);
        k += 1;
    }
    Ok(out)
}

/// Scans the full code table, in order, for the entries whose parent
/// reference equals `code_ref`. Yields nothing before the
/// child-supporting format revision, regardless of any parent references
/// present in the source.
fn find_children(code_ref: u32, data: &GameData) -> (r: Vec<u32>)
    requires
        data.codes@.len() <= u32::MAX,
    ensures
        data.general_info.wad_version >= CHILD_WAD_VERSION ==> r@ == child_indices(
            *data,
            code_ref as int,
        ),
        data.general_info.wad_version < CHILD_WAD_VERSION ==> r@.len() == 0,
{
    // No child code entries before the child-supporting revision.
    if data.general_info.wad_version < CHILD_WAD_VERSION {
        return Vec::new();
    }

    let mut children: Vec<u32> = Vec::new();
    let mut idx: usize = 0;
    while idx < data.codes.len()
        invariant
            data.codes@.len() <= u32::MAX,
            idx <= data.codes@.len(),
            children@ == child_indices_upto(*data, code_ref as int, idx as int),
        decreases data.codes@.len() - idx,
    {
        match data.codes[idx].parent() {
            Some(parent) => {
                if parent == code_ref {
                    children.push(idx as u32);
                }
            },
            None => {},
        }
        proof {
            assert(children@ =~= child_indices_upto(*data, code_ref as int, idx as int + 1));
        }
        idx += 1;
    }
    children
}

/// The total encoded byte length of the entry's instructions: the sum of
/// each instruction's encoded size.
fn get_length(code: &CodeEntry) -> (r: u32)
    requires
        spec_code_length(*code) <= u32::MAX,
    ensures
        r as int == spec_code_length(*code),
{
    let mut total: u32 = 0;
    let mut k: usize = 0;
    while k < code.instructions.len()
        invariant
            spec_code_length(*code) <= u32::MAX,
            k <= code.instructions@.len(),
            total as int == spec_length_upto(code.instructions@, k as int),
        decreases code.instructions@.len() - k,
    {
        proof {
            lemma_length_upto_mono(code.instructions@, k as int + 1, code.instructions@.len() as int);
        }
        total = total + code.instructions[k].size();
        k += 1;
    }
    total
}

} // verus!
