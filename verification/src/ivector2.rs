//! An integer 2D vector with componentwise arithmetic and an explicit,
//! layout-independent hashing scheme.

use vstd::prelude::*;

verus! {

/// Signed division rounded toward zero, the semantics of Rust's `/`.
pub open spec fn div_trunc(a: i32, b: i32) -> i32 {
    if a >= 0 {
        ((a as int) / (b as int)) as i32
    } else {
        (-((-(a as int)) / (b as int))) as i32
    }
}

/// A 2D vector of `i32` components. Plain value semantics: equality is
/// exact componentwise equality.
#[derive(Clone, Copy, Debug, Hash, PartialEq, Eq, Structural)]
pub struct IVector2 {
    pub x: i32,
    pub y: i32,
}

impl IVector2 {
    /// The zero vector.
    pub fn zero() -> (r: IVector2)
        ensures
            r.x == 0,
            r.y == 0,
    {
        IVector2 { x: 0, y: 0 }
    }

    /// The all-ones vector.
    pub fn one() -> (r: IVector2)
        ensures
            r.x == 1,
            r.y == 1,
    {
        IVector2 { x: 1, y: 1 }
    }

    /// The unit vector along positive y.
    pub fn up() -> (r: IVector2)
        ensures
            r.x == 0,
            r.y == 1,
    {
        IVector2 { x: 0, y: 1 }
    }

    /// The unit vector along negative y.
    pub fn down() -> (r: IVector2)
        ensures
            r.x == 0,
            r.y == -1,
    {
        IVector2 { x: 0, y: -1 }
    }

    /// The x = 1 axis vector (this library's left, mirroring `right`).
    pub fn left() -> (r: IVector2)
        ensures
            r.x == 1,
            r.y == 0,
    {
        IVector2 { x: 1, y: 0 }
    }

    /// The x = -1 axis vector (this library's right, mirroring `left`).
    pub fn right() -> (r: IVector2)
        ensures
            r.x == -1,
            r.y == 0,
    {
        IVector2 { x: -1, y: 0 }
    }

    /// The vector with both components equal to `value`.
    pub fn splat(value: i32) -> (r: IVector2)
        ensures
            r.x == value,
            r.y == value,
    {
        IVector2 { x: value, y: value }
    }

    /// The canonical byte encoding of the vector: the little-endian bytes
    /// of `x` followed by those of `y`, defined over the logical fields.
    /// Equal vectors encode equally and distinct vectors encode distinctly
    /// (`lemma_hash_bytes_injective`); the derived `Hash` hashes the two
    /// fields directly and is not specified by this sequence.
    pub open spec fn hash_bytes_spec(self) -> Seq<u8> {
        let xb = self.x as u32;
        let yb = self.y as u32;
        seq![
            (xb & 0xff) as u8,
            ((xb >> 8) & 0xff) as u8,
            ((xb >> 16) & 0xff) as u8,
            ((xb >> 24) & 0xff) as u8,
            (yb & 0xff) as u8,
            ((yb >> 8) & 0xff) as u8,
            ((yb >> 16) & 0xff) as u8,
            ((yb >> 24) & 0xff) as u8,
        ]
    }

    /// The bytes that represent this vector for hashing.
    pub fn hash_bytes(&self) -> (r: Vec<u8>)
        ensures
            r@ == self.hash_bytes_spec(),
    {
        let xb = self.x as u32;
        let yb = self.y as u32;
        let mut r: Vec<u8> = Vec::new();
        r.push((xb & 0xff) as u8);
        r.push(((xb >> 8) & 0xff) as u8);
        r.push(((xb >> 16) & 0xff) as u8);
        r.push(((xb >> 24) & 0xff) as u8);
        r.push((yb & 0xff) as u8);
        r.push(((yb >> 8) & 0xff) as u8);
        r.push(((yb >> 16) & 0xff) as u8);
        r.push(((yb >> 24) & 0xff) as u8);
        proof {
            assert(r@ =~= self.hash_bytes_spec());
        }
        r
    }

    /// Componentwise sum.
    pub fn add(self, rhs: IVector2) -> (r: IVector2)
        requires
            i32::MIN <= self.x + rhs.x <= i32::MAX,
            i32::MIN <= self.y + rhs.y <= i32::MAX,
        ensures
            r.x == self.x + rhs.x,
            r.y == self.y + rhs.y,
    {
        IVector2 { x: self.x + rhs.x, y: self.y + rhs.y }
    }

    /// Componentwise sum, in place.
    pub fn add_assign(&mut self, rhs: IVector2)
        requires
            i32::MIN <= old(self).x + rhs.x <= i32::MAX,
            i32::MIN <= old(self).y + rhs.y <= i32::MAX,
        ensures
            final(self).x == old(self).x + rhs.x,
            final(self).y == old(self).y + rhs.y,
    {
        self.x = self.x + rhs.x;
        self.y = self.y + rhs.y;
    }

    /// Componentwise difference.
    pub fn sub(self, rhs: IVector2) -> (r: IVector2)
        requires
            i32::MIN <= self.x - rhs.x <= i32::MAX,
            i32::MIN <= self.y - rhs.y <= i32::MAX,
        ensures
            r.x == self.x - rhs.x,
            r.y == self.y - rhs.y,
    {
        IVector2 { x: self.x - rhs.x, y: self.y - rhs.y }
    }

    /// Componentwise difference, in place.
    pub fn sub_assign(&mut self, rhs: IVector2)
        requires
            i32::MIN <= old(self).x - rhs.x <= i32::MAX,
            i32::MIN <= old(self).y - rhs.y <= i32::MAX,
        ensures
            final(self).x == old(self).x - rhs.x,
            final(self).y == old(self).y - rhs.y,
    {
        self.x = self.x - rhs.x;
        self.y = self.y - rhs.y;
    }

    /// Componentwise product.
    pub fn mul(self, rhs: IVector2) -> (r: IVector2)
        requires
            i32::MIN <= self.x * rhs.x <= i32::MAX,
            i32::MIN <= self.y * rhs.y <= i32::MAX,
        ensures
            r.x == self.x * rhs.x,
            r.y == self.y * rhs.y,
    {
        IVector2 { x: self.x * rhs.x, y: self.y * rhs.y }
    }

    /// Componentwise product, in place.
    pub fn mul_assign(&mut self, rhs: IVector2)
        requires
            i32::MIN <= old(self).x * rhs.x <= i32::MAX,
            i32::MIN <= old(self).y * rhs.y <= i32::MAX,
        ensures
            final(self).x == old(self).x * rhs.x,
            final(self).y == old(self).y * rhs.y,
    {
        self.x = self.x * rhs.x;
        self.y = self.y * rhs.y;
    }

    /// Componentwise quotient, truncated toward zero.
    pub fn div(self, rhs: IVector2) -> (r: IVector2)
        requires
            rhs.x != 0,
            rhs.y != 0,
            !(self.x == i32::MIN && rhs.x == -1),
            !(self.y == i32::MIN && rhs.y == -1),
        ensures
            r.x == div_trunc(self.x, rhs.x),
            r.y == div_trunc(self.y, rhs.y),
    {
        IVector2 { x: self.x / rhs.x, y: self.y / rhs.y }
    }

    /// Componentwise quotient, truncated toward zero, in place.
    pub fn div_assign(&mut self, rhs: IVector2)
        requires
            rhs.x != 0,
            rhs.y != 0,
            !(old(self).x == i32::MIN && rhs.x == -1),
            !(old(self).y == i32::MIN && rhs.y == -1),
        ensures
            final(self).x == div_trunc(old(self).x, rhs.x),
            final(self).y == div_trunc(old(self).y, rhs.y),
    {
        self.x = self.x / rhs.x;
        self.y = self.y / rhs.y;
    }
}

/// Equal vectors encode to the same bytes and distinct vectors to
/// distinct bytes: the canonical byte encoding is injective.
pub proof fn lemma_hash_bytes_injective(a: IVector2, b: IVector2)
    ensures
        a.hash_bytes_spec() == b.hash_bytes_spec() <==> a == b,
{
    if a.hash_bytes_spec() == b.hash_bytes_spec() {
        let xa = a.x as u32;
        let xb = b.x as u32;
        let ya = a.y as u32;
        let yb = b.y as u32;
        assert(a.hash_bytes_spec()[0] == b.hash_bytes_spec()[0]);
        assert(a.hash_bytes_spec()[1] == b.hash_bytes_spec()[1]);
        assert(a.hash_bytes_spec()[2] == b.hash_bytes_spec()[2]);
        assert(a.hash_bytes_spec()[3] == b.hash_bytes_spec()[3]);
        assert(a.hash_bytes_spec()[4] == b.hash_bytes_spec()[4]);
        assert(a.hash_bytes_spec()[5] == b.hash_bytes_spec()[5]);
        assert(a.hash_bytes_spec()[6] == b.hash_bytes_spec()[6]);
        assert(a.hash_bytes_spec()[7] == b.hash_bytes_spec()[7]);
        assert(xa == xb) by (bit_vector)
            requires
                (xa & 0xff) as u8 == (xb & 0xff) as u8,
                ((xa >> 8) & 0xff) as u8 == ((xb >> 8) & 0xff) as u8,
                ((xa >> 16) & 0xff) as u8 == ((xb >> 16) & 0xff) as u8,
                ((xa >> 24) & 0xff) as u8 == ((xb >> 24) & 0xff) as u8,
        ;
        assert(ya == yb) by (bit_vector)
            requires
                (ya & 0xff) as u8 == (yb & 0xff) as u8,
                ((ya >> 8) & 0xff) as u8 == ((yb >> 8) & 0xff) as u8,
                ((ya >> 16) & 0xff) as u8 == ((yb >> 16) & 0xff) as u8,
                ((ya >> 24) & 0xff) as u8 == ((yb >> 24) & 0xff) as u8,
        ;
        let ax = a.x;
        let bx = b.x;
        let ay = a.y;
        let by = b.y;
        assert(ax == bx) by (bit_vector)
            requires
                ax as u32 == bx as u32,
        ;
        assert(ay == by) by (bit_vector)
            requires
                ay as u32 == by as u32,
        ;
    }
}

} // verus!
