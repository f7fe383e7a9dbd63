//! The type descriptors that the server sends, and the check that a scalar
//! type stands at a given position among them.
use vstd::prelude::*;
use vstd::set_lib::{lemma_int_range, lemma_len_subset, set_int_range};

use crate::errors::ArgError;
use crate::model::Uuid;

verus! {

/// The position of a descriptor in the list that the server sent.
#[derive(Debug, Clone, Copy, PartialEq, Eq, Hash, Structural)]
pub struct TypePos(pub u16);

/// A type descriptor, as far as the argument checks read it.
#[derive(Debug)]
pub enum Descriptor {
    /// A built-in scalar type.
    BaseScalar { id: Uuid },
    /// A scalar type derived from the one at `base_type_pos`, where there is one.
    Scalar { id: Uuid, base_type_pos: Option<TypePos> },
    /// An enumeration with the given members.
    Enumeration { id: Uuid, members: Vec<String> },
    /// A range of the type at `type_pos`.
    Range { id: Uuid, type_pos: TypePos },
    /// Any other kind of descriptor (object shape, set, tuple, array, ...).
    Other { id: Uuid },
}

/// The version of the protocol that the connection speaks.
#[derive(Debug, Clone, Copy, PartialEq, Eq, Structural)]
pub struct ProtocolVersion {
    pub major_ver: u16,
    pub minor_ver: u16,
}

impl ProtocolVersion {
    /// Whether the version is 2.0 or later.
    pub fn is_2(&self) -> (r: bool)
        ensures
            r == (self.major_ver >= 2),
    {
        self.major_ver >= 2
    }
}

/// The descriptors of a query, with the protocol version they came with.
#[derive(Debug)]
pub struct DescriptorContext {
    pub proto: ProtocolVersion,
    pub descriptors: Vec<Descriptor>,
}

impl DescriptorContext {
    /// The descriptor at `pos`, or `InvalidTypePos` where there is none.
    pub fn get(&self, pos: TypePos) -> (r: Result<&Descriptor, ArgError>)
        ensures
            (pos.0 as int) < self.descriptors@.len() ==> r == Ok::<&Descriptor, ArgError>(
                &self.descriptors@[pos.0 as int],
            ),
            (pos.0 as int) >= self.descriptors@.len() ==> r == Err::<&Descriptor, ArgError>(
                ArgError::InvalidTypePos { pos: pos.0 },
            ),
    {
        let i = pos.0 as usize;
        if i < self.descriptors.len() {
            Ok(&self.descriptors[i])
        } else {
            Err(ArgError::InvalidTypePos { pos: pos.0 })
        }
    }

    /// The error of finding the descriptor at `pos` where a value of the type
    /// named `expected` was wanted.
    pub fn wrong_type(&self, pos: TypePos, expected: &'static str) -> (r: ArgError)
        ensures
            r == (ArgError::WrongType { found: pos.0, expected }),
    {
        ArgError::WrongType { found: pos.0, expected }
    }
}

/// Whether following base types from `pos` reaches, within `fuel` steps, a
/// descriptor that is not a scalar derived from another one (or a position
/// past the end of the list).
pub open spec fn base_chain_within(descs: Seq<Descriptor>, pos: u16, fuel: nat) -> bool
    decreases fuel,
{
    if (pos as int) < descs.len() {
        match descs[pos as int] {
            Descriptor::Scalar { base_type_pos: Some(b), .. } => fuel > 0 && base_chain_within(
                descs,
                b.0,
                (fuel - 1) as nat,
            ),
            _ => true,
        }
    } else {
        true
    }
}

/// Whether following base types from `pos` comes to an end: the descriptors
/// hold no cycle of base types reachable from `pos`.
pub open spec fn base_chain_ends(descs: Seq<Descriptor>, pos: u16) -> bool {
    exists|n: nat| base_chain_within(descs, pos, n)
}

/// The outcome of checking that the scalar type `type_id` stands at `pos`,
/// following base types for at most `fuel` steps: a derived scalar is checked
/// through its base; a scalar without a base matches by its id from protocol
/// 2.0 on; a base scalar matches by its id; anything else is the wrong type.
pub open spec fn scalar_check(
    descs: Seq<Descriptor>,
    is_2: bool,
    pos: u16,
    type_id: Uuid,
    name: &'static str,
    fuel: nat,
) -> Result<(), ArgError>
    decreases fuel,
{
    if (pos as int) >= descs.len() {
        Err(ArgError::InvalidTypePos { pos })
    } else {
        match descs[pos as int] {
            Descriptor::Scalar { base_type_pos: Some(b), .. } => if fuel == 0 {
                Err(ArgError::InvalidTypePos { pos })
            } else {
                scalar_check(descs, is_2, b.0, type_id, name, (fuel - 1) as nat)
            },
            Descriptor::Scalar { id, base_type_pos: None } => if is_2 && id == type_id {
                Ok(())
            } else {
                Err(ArgError::WrongType { found: pos, expected: name })
            },
            Descriptor::BaseScalar { id } => if id == type_id {
                Ok(())
            } else {
                Err(ArgError::WrongType { found: pos, expected: name })
            },
            _ => Err(ArgError::WrongType { found: pos, expected: name }),
        }
    }
}

/// The outcome of `check_scalar(ctx, pos, type_id, name)`.
pub open spec fn check_scalar_result(
    ctx: &DescriptorContext,
    pos: TypePos,
    type_id: Uuid,
    name: &'static str,
) -> Result<(), ArgError> {
    let descs = ctx.descriptors@;
    scalar_check(
        descs,
        ctx.proto.major_ver >= 2,
        pos.0,
        type_id,
        name,
        choose|n: nat| base_chain_within(descs, pos.0, n),
    )
}

/// Checking with more steps than the chain of base types needs gives the same outcome.
pub proof fn lemma_scalar_check_fuel(
    descs: Seq<Descriptor>,
    is_2: bool,
    pos: u16,
    type_id: Uuid,
    name: &'static str,
    n: nat,
    m: nat,
)
    requires
        base_chain_within(descs, pos, n),
        n <= m,
    ensures
        base_chain_within(descs, pos, m),
        scalar_check(descs, is_2, pos, type_id, name, m) == scalar_check(
            descs,
            is_2,
            pos,
            type_id,
            name,
            n,
        ),
    decreases n,
{
    if (pos as int) < descs.len() {
        match descs[pos as int] {
            Descriptor::Scalar { base_type_pos: Some(b), .. } => {
                lemma_scalar_check_fuel(
                    descs,
                    is_2,
                    b.0,
                    type_id,
                    name,
                    (n - 1) as nat,
                    (m - 1) as nat,
                );
            },
            _ => {},
        }
    }
}

/// A derived scalar is judged by its base type alone: checking it gives what
/// checking its base gives, whatever its own id.
pub proof fn law_derived_scalar_judged_by_base(
    ctx: &DescriptorContext,
    pos: TypePos,
    base: TypePos,
    type_id: Uuid,
    name: &'static str,
)
    requires
        base_chain_ends(ctx.descriptors@, pos.0),
        (pos.0 as int) < ctx.descriptors@.len(),
        ctx.descriptors@[pos.0 as int] matches Descriptor::Scalar { base_type_pos: Some(b), .. }
            && b == base,
    ensures
        base_chain_ends(ctx.descriptors@, base.0),
        check_scalar_result(ctx, pos, type_id, name) == check_scalar_result(
            ctx,
            base,
            type_id,
            name,
        ),
{
    let descs = ctx.descriptors@;
    let is_2 = ctx.proto.major_ver >= 2;
    let n = choose|n: nat| base_chain_within(descs, pos.0, n);
    assert(n > 0 && base_chain_within(descs, base.0, (n - 1) as nat));
    let m = choose|m: nat| base_chain_within(descs, base.0, m);
    assert(scalar_check(descs, is_2, pos.0, type_id, name, n) == scalar_check(
        descs,
        is_2,
        base.0,
        type_id,
        name,
        (n - 1) as nat,
    ));
    if (n - 1) as nat <= m {
        lemma_scalar_check_fuel(descs, is_2, base.0, type_id, name, (n - 1) as nat, m);
    } else {
        lemma_scalar_check_fuel(descs, is_2, base.0, type_id, name, m, (n - 1) as nat);
    }
}

/// Whether the descriptor at `q` is a scalar without a base type whose id is
/// `type_id`: a base scalar, or (from protocol 2.0 on, `is_2`) a scalar that
/// names no base.
pub open spec fn scalar_with_id(descs: Seq<Descriptor>, is_2: bool, q: u16, type_id: Uuid) -> bool {
    &&& (q as int) < descs.len()
    &&& match descs[q as int] {
        Descriptor::BaseScalar { id } => id == type_id,
        Descriptor::Scalar { id, base_type_pos: None } => is_2 && id == type_id,
        _ => false,
    }
}

/// A successful check within `fuel` steps ends at a scalar with the wanted id.
proof fn lemma_scalar_check_ok(
    descs: Seq<Descriptor>,
    is_2: bool,
    pos: u16,
    type_id: Uuid,
    name: &'static str,
    fuel: nat,
)
    requires
        scalar_check(descs, is_2, pos, type_id, name, fuel) is Ok,
    ensures
        exists|k: nat| scalar_with_id(descs, is_2, #[trigger] step_n(descs, pos, k), type_id),
    decreases fuel,
{
    match descs[pos as int] {
        Descriptor::Scalar { base_type_pos: Some(b), .. } => {
            lemma_scalar_check_ok(descs, is_2, b.0, type_id, name, (fuel - 1) as nat);
            let k = choose|k: nat| scalar_with_id(descs, is_2, #[trigger] step_n(descs, b.0, k), type_id);
            assert(step_n(descs, pos, k + 1) == step_n(descs, b.0, k));
        },
        _ => {
            assert(step_n(descs, pos, 0) == pos);
        },
    }
}

/// A check whose chain of base types reaches a scalar with the wanted id
/// succeeds.
proof fn lemma_scalar_check_reaches(
    descs: Seq<Descriptor>,
    is_2: bool,
    pos: u16,
    type_id: Uuid,
    name: &'static str,
    fuel: nat,
    k: nat,
)
    requires
        base_chain_within(descs, pos, fuel),
        scalar_with_id(descs, is_2, step_n(descs, pos, k), type_id),
    ensures
        scalar_check(descs, is_2, pos, type_id, name, fuel) is Ok,
    decreases fuel,
{
    match base_of(descs, pos) {
        Some(b) => {
            if k == 0 {
                assert(step_n(descs, pos, 0) == pos);
            } else {
                assert(step_n(descs, pos, k) == step_n(descs, b, (k - 1) as nat));
                lemma_scalar_check_reaches(descs, is_2, b, type_id, name, (fuel - 1) as nat, (k - 1) as nat);
            }
        },
        None => {
            lemma_step_stays(descs, pos, k);
        },
    }
}

/// The check succeeds exactly where the chain of base types from `pos`
/// reaches a scalar whose own id is the wanted one: a base scalar, or from
/// protocol 2.0 on a scalar that names no base.
pub proof fn law_check_scalar_ok_iff_id(
    ctx: &DescriptorContext,
    pos: TypePos,
    type_id: Uuid,
    name: &'static str,
)
    requires
        base_chain_ends(ctx.descriptors@, pos.0),
    ensures
        check_scalar_result(ctx, pos, type_id, name) is Ok <==> exists|k: nat|
            scalar_with_id(
                ctx.descriptors@,
                ctx.proto.major_ver >= 2,
                #[trigger] step_n(ctx.descriptors@, pos.0, k),
                type_id,
            ),
{
    let descs = ctx.descriptors@;
    let is_2 = ctx.proto.major_ver >= 2;
    let n = choose|n: nat| base_chain_within(descs, pos.0, n);
    if check_scalar_result(ctx, pos, type_id, name) is Ok {
        lemma_scalar_check_ok(descs, is_2, pos.0, type_id, name, n);
    }
    if exists|k: nat| scalar_with_id(descs, is_2, #[trigger] step_n(descs, pos.0, k), type_id) {
        let k = choose|k: nat| scalar_with_id(descs, is_2, #[trigger] step_n(descs, pos.0, k), type_id);
        lemma_scalar_check_reaches(descs, is_2, pos.0, type_id, name, n, k);
    }
}

/// The check accepts a type only where the chain of base types from `pos`
/// leads to a scalar whose own id is the wanted one: a base scalar, or from
/// protocol 2.0 on a scalar that names no base. A scalar of another id is
/// refused whatever the protocol.
pub proof fn law_check_scalar_ok_needs_id(
    ctx: &DescriptorContext,
    pos: TypePos,
    type_id: Uuid,
    name: &'static str,
)
    requires
        base_chain_ends(ctx.descriptors@, pos.0),
        check_scalar_result(ctx, pos, type_id, name) is Ok,
    ensures
        exists|k: nat|
            scalar_with_id(
                ctx.descriptors@,
                ctx.proto.major_ver >= 2,
                #[trigger] step_n(ctx.descriptors@, pos.0, k),
                type_id,
            ),
{
    let n = choose|n: nat| base_chain_within(ctx.descriptors@, pos.0, n);
    lemma_scalar_check_ok(ctx.descriptors@, ctx.proto.major_ver >= 2, pos.0, type_id, name, n);
}

fn check_scalar_within(
    ctx: &DescriptorContext,
    type_pos: TypePos,
    type_id: Uuid,
    name: &'static str,
    Ghost(fuel): Ghost<nat>,
) -> (r: Result<(), ArgError>)
    requires
        base_chain_within(ctx.descriptors@, type_pos.0, fuel),
    ensures
        r == scalar_check(
            ctx.descriptors@,
            ctx.proto.major_ver >= 2,
            type_pos.0,
            type_id,
            name,
            fuel,
        ),
    decreases fuel,
{
    let desc = ctx.get(type_pos)?;
    match desc {
        Descriptor::Scalar { base_type_pos: Some(base), .. } => {
            return check_scalar_within(ctx, *base, type_id, name, Ghost((fuel - 1) as nat));
        },
        Descriptor::Scalar { id, base_type_pos: None } => {
            if ctx.proto.is_2() && id.0 == type_id.0 {
                return Ok(());
            }
        },
        Descriptor::BaseScalar { id } => {
            if id.0 == type_id.0 {
                return Ok(());
            }
        },
        _ => {},
    }
    Err(ctx.wrong_type(type_pos, name))
}

/// The position that the descriptor at `pos` names as its base type, where
/// it is a derived scalar.
pub open spec fn base_of(descs: Seq<Descriptor>, pos: u16) -> Option<u16> {
    if (pos as int) < descs.len() {
        match descs[pos as int] {
            Descriptor::Scalar { base_type_pos: Some(b), .. } => Some(b.0),
            _ => None,
        }
    } else {
        None
    }
}

/// The position reached from `pos` after `k` steps from derived scalars to
/// their base types (a step from any other descriptor stays in place).
pub open spec fn step_n(descs: Seq<Descriptor>, pos: u16, k: nat) -> u16
    decreases k,
{
    if k == 0 {
        pos
    } else {
        match base_of(descs, pos) {
            Some(b) => step_n(descs, b, (k - 1) as nat),
            None => pos,
        }
    }
}

/// Whether the first `k` positions of the chain of base types from `pos` are
/// all derived scalars.
pub open spec fn derived_for(descs: Seq<Descriptor>, pos: u16, k: nat) -> bool
    decreases k,
{
    k == 0 || match base_of(descs, pos) {
        Some(b) => derived_for(descs, b, (k - 1) as nat),
        None => false,
    }
}

/// The chain ends within `n` steps exactly where its first `n + 1` positions
/// are not all derived scalars.
proof fn lemma_within_derived(descs: Seq<Descriptor>, pos: u16, n: nat)
    ensures
        base_chain_within(descs, pos, n) == !derived_for(descs, pos, n + 1),
    decreases n,
{
    match base_of(descs, pos) {
        Some(b) => {
            assert(derived_for(descs, pos, n + 1) == derived_for(descs, b, n));
            if n > 0 {
                lemma_within_derived(descs, b, (n - 1) as nat);
                assert(base_chain_within(descs, pos, n) == base_chain_within(descs, b, (n - 1) as nat));
            } else {
                assert(!base_chain_within(descs, pos, n));
            }
        },
        None => {
            assert(!derived_for(descs, pos, n + 1));
            assert(base_chain_within(descs, pos, n));
        },
    }
}

/// Steps compose.
proof fn lemma_step_add(descs: Seq<Descriptor>, pos: u16, a: nat, b: nat)
    ensures
        step_n(descs, pos, a + b) == step_n(descs, step_n(descs, pos, a), b),
    decreases a,
{
    if a > 0 {
        if let Some(p) = base_of(descs, pos) {
            lemma_step_add(descs, p, (a - 1) as nat, b);
        } else {
            lemma_step_stays(descs, pos, b);
            lemma_step_stays(descs, pos, a + b);
        }
    }
}

/// Steps from a descriptor that is not a derived scalar stay in place.
proof fn lemma_step_stays(descs: Seq<Descriptor>, pos: u16, k: nat)
    requires
        base_of(descs, pos) is None,
    ensures
        step_n(descs, pos, k) == pos,
{
}

/// The first `k` positions are derived scalars exactly where each of the
/// first `k` steps starts from one.
proof fn lemma_derived_steps(descs: Seq<Descriptor>, pos: u16, k: nat)
    ensures
        derived_for(descs, pos, k) <==> forall|m: nat|
            m < k ==> (#[trigger] base_of(descs, step_n(descs, pos, m))) is Some,
    decreases k,
{
    if k > 0 {
        match base_of(descs, pos) {
            Some(b) => {
                lemma_derived_steps(descs, b, (k - 1) as nat);
                assert(step_n(descs, pos, 0) == pos);
                assert forall|m: nat| 0 < m < k implies step_n(descs, pos, m) == step_n(
                    descs,
                    b,
                    (m - 1) as nat,
                ) by {}
                if derived_for(descs, pos, k) {
                    assert forall|m: nat| m < k implies (#[trigger] base_of(
                        descs,
                        step_n(descs, pos, m),
                    )) is Some by {
                        if m > 0 {
                            assert(base_of(descs, step_n(descs, b, (m - 1) as nat)) is Some);
                        }
                    }
                } else {
                    let m0 = choose|m: nat|
                        m < k - 1 && !((#[trigger] base_of(descs, step_n(descs, b, m))) is Some);
                    assert(base_of(descs, step_n(descs, pos, m0 + 1)) is None);
                }
            },
            None => {
                assert(step_n(descs, pos, 0) == pos);
            },
        }
    }
}

/// Where the first `descs.len() + 1` positions of the chain from `pos` are
/// all derived scalars, two of them are the same position.
proof fn lemma_chain_repeats(descs: Seq<Descriptor>, pos: u16)
    requires
        derived_for(descs, pos, descs.len() + 1),
    ensures
        exists|i: nat, j: nat|
            i < j <= descs.len() && step_n(descs, pos, i) == step_n(descs, pos, j),
{
    let len = descs.len();
    lemma_derived_steps(descs, pos, len + 1);
    let s = Seq::new(len + 1, |m: int| step_n(descs, pos, m as nat) as int);
    if s.no_duplicates() {
        s.unique_seq_to_set();
        lemma_int_range(0, len as int);
        assert(s.to_set().subset_of(set_int_range(0, len as int))) by {
            assert forall|x: int| s.to_set().contains(x) implies set_int_range(
                0,
                len as int,
            ).contains(x) by {
                let m = choose|m: int| 0 <= m < s.len() && s[m] == x;
                assert(base_of(descs, step_n(descs, pos, m as nat)) is Some);
            }
        }
        lemma_len_subset(s.to_set(), set_int_range(0, len as int));
        assert(false);
    } else {
        let (i, j) = choose|i: int, j: int|
            0 <= i < s.len() && 0 <= j < s.len() && i != j && s[i] == s[j];
        if i < j {
            assert(step_n(descs, pos, i as nat) == step_n(descs, pos, j as nat));
        } else {
            assert(step_n(descs, pos, j as nat) == step_n(descs, pos, i as nat));
        }
    }
}

/// Where the first `descs.len() + 1` positions of the chain from `pos` are
/// all derived scalars, every position of it is: the chain never ends.
proof fn lemma_chain_endless(descs: Seq<Descriptor>, pos: u16, k: nat)
    requires
        derived_for(descs, pos, descs.len() + 1),
    ensures
        derived_for(descs, pos, k),
{
    let len = descs.len();
    lemma_chain_repeats(descs, pos);
    let (i, j) = choose|i: nat, j: nat|
        i < j <= len && step_n(descs, pos, i) == step_n(descs, pos, j);
    lemma_derived_steps(descs, pos, len + 1);
    assert forall|m: nat| m < k implies (#[trigger] base_of(descs, step_n(descs, pos, m))) is Some by {
        lemma_chain_step_derived(descs, pos, i, j, m);
    }
    lemma_derived_steps(descs, pos, k);
}

/// In a chain whose first `descs.len() + 1` positions are derived scalars and
/// whose positions `i` and `j` agree, the position after `m` steps is one too.
proof fn lemma_chain_step_derived(descs: Seq<Descriptor>, pos: u16, i: nat, j: nat, m: nat)
    requires
        derived_for(descs, pos, descs.len() + 1),
        forall|m: nat|
            m < descs.len() + 1 ==> (#[trigger] base_of(descs, step_n(descs, pos, m))) is Some,
        i < j <= descs.len(),
        step_n(descs, pos, i) == step_n(descs, pos, j),
    ensures
        base_of(descs, step_n(descs, pos, m)) is Some,
    decreases m,
{
    if m > descs.len() {
        let d = (j - i) as nat;
        let m2 = (m - d) as nat;
        lemma_step_add(descs, pos, j, (m - j) as nat);
        lemma_step_add(descs, pos, i, (m - j) as nat);
        assert(i + (m - j) == m2);
        assert(j + (m - j) == m);
        lemma_chain_step_derived(descs, pos, i, j, m2);
    }
}

/// Whether following base types from `pos` comes to an end, as
/// `check_scalar` needs: it fails to only where the chain of base types
/// holds a cycle.
pub fn base_chain_is_finite(ctx: &DescriptorContext, pos: TypePos) -> (r: bool)
    ensures
        r == base_chain_ends(ctx.descriptors@, pos.0),
{
    let ghost descs = ctx.descriptors@;
    let len = ctx.descriptors.len();
    let mut p = pos.0;
    let mut i: usize = 0;
    while i < len
        invariant
            i <= len,
            len == descs.len(),
            descs == ctx.descriptors@,
            p == step_n(descs, pos.0, i as nat),
            derived_for(descs, pos.0, i as nat),
        decreases len - i,
    {
        match ctx.get(TypePos(p)) {
            Ok(Descriptor::Scalar { base_type_pos: Some(b), .. }) => {
                proof {
                    assert(base_of(descs, p) == Some(b.0));
                    assert(step_n(descs, b.0, 0) == b.0);
                    assert(step_n(descs, p, 1) == b.0);
                    lemma_step_add(descs, pos.0, i as nat, 1);
                    lemma_derived_add(descs, pos.0, i as nat);
                }
                p = b.0;
                i = i + 1;
            },
            _ => {
                proof {
                    lemma_derived_add(descs, pos.0, i as nat);
                    lemma_within_derived(descs, pos.0, i as nat);
                }
                return true;
            },
        }
    }
    match ctx.get(TypePos(p)) {
        Ok(Descriptor::Scalar { base_type_pos: Some(_), .. }) => {
            proof {
                lemma_derived_add(descs, pos.0, i as nat);
                assert forall|n: nat| !base_chain_within(descs, pos.0, n) by {
                    lemma_chain_endless(descs, pos.0, n + 1);
                    lemma_within_derived(descs, pos.0, n);
                }
            }
            false
        },
        _ => {
            proof {
                lemma_derived_add(descs, pos.0, i as nat);
                lemma_within_derived(descs, pos.0, i as nat);
            }
            true
        },
    }
}

/// One more position of the chain is a derived scalar exactly where the
/// position after the steps so far is one.
proof fn lemma_derived_add(descs: Seq<Descriptor>, pos: u16, k: nat)
    requires
        derived_for(descs, pos, k),
    ensures
        derived_for(descs, pos, k + 1) == (base_of(descs, step_n(descs, pos, k)) is Some),
    decreases k,
{
    if k > 0 {
        let b = base_of(descs, pos)->Some_0;
        assert(derived_for(descs, b, (k - 1) as nat));
        lemma_derived_add(descs, b, (k - 1) as nat);
        assert(derived_for(descs, pos, k + 1) == derived_for(descs, b, k));
        assert(step_n(descs, pos, k) == step_n(descs, b, (k - 1) as nat));
    } else {
        assert(step_n(descs, pos, 0) == pos);
        assert(derived_for(descs, pos, 1) == (base_of(descs, pos) is Some)) by {
            if let Some(b) = base_of(descs, pos) {
                assert(derived_for(descs, b, 0));
            }
        }
    }
}

/// Checks that the descriptor at `type_pos` is the scalar type `type_id`
/// (named `name`), or a scalar derived from it. A derived scalar is checked
/// through its base type; one without a base matches by its own id from
/// protocol 2.0 on; a base scalar matches by its id. A position past the end
/// of the list fails with `InvalidTypePos`, any other mismatch with
/// `WrongType` at the last position looked at.
pub fn check_scalar(ctx: &DescriptorContext, type_pos: TypePos, type_id: Uuid, name: &'static str) -> (r:
    Result<(), ArgError>)
    requires
        base_chain_ends(ctx.descriptors@, type_pos.0),
    ensures
        r == check_scalar_result(ctx, type_pos, type_id, name),
{
    let ghost fuel = choose|n: nat| base_chain_within(ctx.descriptors@, type_pos.0, n);
    check_scalar_within(ctx, type_pos, type_id, name, Ghost(fuel))
}

} // verus!
