//! The layout of interleaved float vertex attributes.
use vstd::prelude::*;

verus! {

/// Where attribute `index` reads its floats in each vertex of the bound
/// array buffer.
#[derive(Clone, Copy, Debug, PartialEq, Eq, Structural)]
pub struct AttribPointer {
    pub index: u32,
    /// Floats per vertex, 1 to 4.
    pub components: u32,
    /// Bytes from one vertex to the next.
    pub stride_bytes: i32,
    /// Bytes from the start of a vertex to this attribute.
    pub offset_bytes: u32,
}

/// Floats in the first `n` attributes of `components`.
pub open spec fn floats_before(components: Seq<u32>, n: int) -> nat
    decreases n,
{
    if n <= 0 {
        0
    } else {
        floats_before(components, n - 1) + components[n - 1] as nat
    }
}

/// Each attribute has one to four components and a vertex of them all fits
/// a GL stride.
pub open spec fn layout_fits(components: Seq<u32>) -> bool {
    &&& forall|i: int| 0 <= i < components.len() ==> 1 <= #[trigger] components[i] <= 4
    &&& 4 * floats_before(components, components.len() as int) <= i32::MAX
}

/// The pointer of attribute `i` when vertices interleave `components`.
pub open spec fn pointer_of(components: Seq<u32>, i: int) -> AttribPointer {
    AttribPointer {
        index: i as u32,
        components: components[i],
        stride_bytes: (4 * floats_before(components, components.len() as int)) as i32,
        offset_bytes: (4 * floats_before(components, i)) as u32,
    }
}

proof fn lemma_floats_before_grows(components: Seq<u32>, i: int, j: int)
    requires
        0 <= i <= j <= components.len(),
    ensures
        floats_before(components, i) <= floats_before(components, j),
    decreases j - i,
{
    if i < j {
        lemma_floats_before_grows(components, i, j - 1);
    }
}

/// The attribute pointers of vertices that hold, in order, attributes of
/// `components[i]` floats each, at indices `0..`; `None` when an attribute
/// has no components or more than four, or a vertex is too long for GL.
pub fn interleaved_floats(components: &Vec<u32>) -> (r: Option<Vec<AttribPointer>>)
    ensures
        r is Some <==> layout_fits(components@),
        r matches Some(v) ==> v@.len() == components@.len() && forall|i: int|
            0 <= i < v@.len() ==> #[trigger] v@[i] == pointer_of(components@, i),
{
    let n = components.len();
    let mut total: u64 = 0;
    let mut i: usize = 0;
    while i < n
        invariant
            n == components@.len(),
            i <= n,
            total == floats_before(components@, i as int),
            4 * total <= i32::MAX,
            forall|k: int| 0 <= k < i ==> 1 <= #[trigger] components@[k] <= 4,
        decreases n - i,
    {
        let c = components[i];
        if c < 1 || c > 4 || 4 * (total + c as u64) > i32::MAX as u64 {
            proof {
                if 1 <= c <= 4 {
                    lemma_floats_before_grows(components@, i + 1, n as int);
                }
            }
            return None;
        }
        total = total + c as u64;
        i = i + 1;
    }
    let stride = (4 * total) as i32;
    let mut v: Vec<AttribPointer> = Vec::new();
    let mut offset: u64 = 0;
    let mut j: usize = 0;
    while j < n
        invariant
            n == components@.len(),
            j <= n,
            total == floats_before(components@, n as int),
            stride == 4 * total,
            4 * total <= i32::MAX,
            offset == floats_before(components@, j as int),
            v@.len() == j,
            forall|k: int| 0 <= k < j ==> #[trigger] v@[k] == pointer_of(components@, k),
        decreases n - j,
    {
        proof {
            lemma_floats_before_grows(components@, j as int + 1, n as int);
        }
        v.push(
            AttribPointer {
                index: j as u32,
                components: components[j],
                stride_bytes: stride,
                offset_bytes: (4 * offset) as u32,
            },
        );
        offset = offset + components[j] as u64;
        j = j + 1;
    }
    Some(v)
}

} // verus!
