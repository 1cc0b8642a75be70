use crate::resource::{BindGroup, Buffer, BufferWrite};
use vstd::prelude::*;

verus! {

/// How many spheres a snapshot holds at most.
pub const MAX_SPHERES: usize = 20;

/// How many 32-bit words a sphere is laid out in.
pub const SPHERE_WORDS: usize = 4;

/// How many 32-bit words lie before the first slot of a snapshot: the count,
/// and three words that keep the slots on multiples of sixteen bytes.
pub const HEADER_WORDS: usize = 4;

/// How many 32-bit words a snapshot is laid out in: the header, then four
/// for each of the twenty slots.
pub const SNAPSHOT_WORDS: usize = 84;

/// How many bytes a snapshot is laid out in: four for each word.
pub const SNAPSHOT_BYTES: usize = 336;

/// One scene object: a sphere given by its centre and its radius.
///
/// Each of the four numbers is a 32-bit float, held here by its IEEE 754 bit
/// pattern: the scene is copied and laid out in bytes, never computed with.
#[derive(Clone, Copy, Debug, PartialEq, Eq)]
pub struct Sphere {
    pub center: [u32; 3],
    pub radius: u32,
}

/// The scene as the application keeps it: any number of spheres, in order.
#[derive(Clone, Debug)]
pub struct Spheres {
    pub spheres: Vec<Sphere>,
}

/// The scene as the kernels read it: a count and exactly twenty slots.
///
/// The first `sphere_count` slots are the scene's first spheres, in order; the
/// other slots hold the zero sphere.
#[derive(Clone, Copy, Debug)]
pub struct ExtractedSpheres {
    pub sphere_count: u32,
    pub spheres: [Sphere; MAX_SPHERES],
}

/// The scene's buffer on the device, and the bind group made for it, if any.
#[derive(Clone, Debug)]
pub struct SpheresMeta {
    pub buffer: Buffer,
    pub bind_group: Option<BindGroup>,
}

impl SpheresMeta {
    /// Whether the buffer is the scene's buffer as it is asked for: one
    /// snapshot long.
    pub open spec fn wf(self) -> bool {
        self.buffer.size == SNAPSHOT_BYTES
    }
}

impl Sphere {
    /// The sphere whose centre is the origin and whose radius is zero.
    pub open spec fn zero() -> Sphere {
        Sphere { center: [0u32, 0u32, 0u32], radius: 0 }
    }

    /// The sphere's four numbers in the order in which they are laid out:
    /// the centre's three coordinates, then the radius.
    pub open spec fn words(self) -> Seq<u32> {
        seq![self.center[0], self.center[1], self.center[2], self.radius]
    }
}

impl Spheres {
    /// How many spheres of this scene a snapshot takes: all of them, or the
    /// first twenty of more.
    pub open spec fn taken(self) -> nat {
        if self.spheres@.len() <= MAX_SPHERES {
            self.spheres@.len()
        } else {
            MAX_SPHERES as nat
        }
    }

    /// What slot `i` of a snapshot of this scene holds: the scene's sphere
    /// `i` if it has one, the zero sphere if not.
    pub open spec fn slot(self, i: int) -> Sphere {
        if 0 <= i < self.spheres@.len() {
            self.spheres@[i]
        } else {
            Sphere::zero()
        }
    }
}

impl ExtractedSpheres {
    /// A snapshot's invariant: the count is at most twenty and every slot
    /// from the count on holds the zero sphere.
    pub open spec fn wf(self) -> bool {
        &&& self.sphere_count <= MAX_SPHERES
        &&& forall|i: int|
            self.sphere_count <= i < MAX_SPHERES ==> #[trigger] self.spheres[i] == Sphere::zero()
    }

    /// Whether this is the snapshot of `source`: the count is the number of
    /// spheres taken, and each of the twenty slots holds what the scene has
    /// for it.
    pub open spec fn is_snapshot_of(self, source: Spheres) -> bool {
        &&& self.sphere_count == source.taken()
        &&& forall|i: int| 0 <= i < MAX_SPHERES ==> #[trigger] self.spheres[i] == source.slot(i)
    }

    /// Takes the frame's snapshot of the scene. A scene of more than twenty
    /// spheres loses all but its first twenty.
    pub fn extract_resource(source: &Spheres) -> (snapshot: Self)
        ensures
            snapshot.is_snapshot_of(*source),
            snapshot.wf(),
    {
        let zero = Sphere { center: [0, 0, 0], radius: 0 };
        let mut spheres: [Sphere; MAX_SPHERES] = [zero; MAX_SPHERES];
        let mut i: usize = 0;
        while i < source.spheres.len() && i < MAX_SPHERES
            invariant
                i <= source.spheres@.len(),
                i <= MAX_SPHERES,
                forall|k: int| 0 <= k < i ==> spheres[k] == source.spheres@[k],
                forall|k: int| i <= k < MAX_SPHERES ==> spheres[k] == Sphere::zero(),
            decreases MAX_SPHERES - i,
        {
            spheres[i] = source.spheres[i];
            i += 1;
        }
        ExtractedSpheres { sphere_count: i as u32, spheres }
    }
}

/// Byte `j` of a word, counted from the least significant one.
pub open spec fn word_byte(word: u32, j: int) -> u8 {
    if j == 0 {
        (word % 0x100) as u8
    } else if j == 1 {
        (word / 0x100 % 0x100) as u8
    } else if j == 2 {
        (word / 0x1_0000 % 0x100) as u8
    } else {
        (word / 0x100_0000 % 0x100) as u8
    }
}

/// A word's four bytes, the least significant first.
fn word_bytes(word: u32) -> (bytes: [u8; 4])
    ensures
        forall|j: int| 0 <= j < 4 ==> bytes[j] == word_byte(word, j),
{
    [
        (word % 0x100) as u8,
        (word / 0x100 % 0x100) as u8,
        (word / 0x1_0000 % 0x100) as u8,
        (word / 0x100_0000 % 0x100) as u8,
    ]
}

/// The bytes of a run of four-byte groups, as they lie in memory.
///
/// Calls `bytemuck::cast_slice` from `[u8; 4]` to `u8`, which hands back the
/// memory of the slice it is given, seen as bytes. An array of four bytes
/// lies in four bytes, and the items of a slice lie one after the other, so
/// the result is the groups end to end: four times as long, byte `k` being
/// byte `k % 4` of group `k / 4`. The call fails only where the target type
/// is aligned more strictly or does not divide the memory, which a byte
/// never does.
#[verifier::external_body]
fn groups_as_bytes(groups: &Vec<[u8; 4]>) -> (bytes: Vec<u8>)
    ensures
        bytes@.len() == 4 * groups@.len(),
        forall|k: int| 0 <= k < bytes@.len() ==> bytes@[k] == groups@[k / 4][k % 4],
{
    bytemuck::cast_slice::<[u8; 4], u8>(groups.as_slice()).to_vec()
}

impl ExtractedSpheres {
    /// Word `k` of the snapshot's layout. Word 0 is the count and words 1 to
    /// 3 are zero, so that the slots lie as the kernels declare them: on
    /// multiples of sixteen bytes. Slot `i` has the words from `4 + 4 * i`
    /// on: its centre's three coordinates, then its radius.
    pub open spec fn word(self, k: int) -> u32 {
        if k == 0 {
            self.sphere_count
        } else if k < HEADER_WORDS {
            0
        } else {
            self.spheres[(k - HEADER_WORDS) / (SPHERE_WORDS as int)].words()[(k - HEADER_WORDS) % (
            SPHERE_WORDS as int)]
        }
    }

    /// The snapshot as the kernels read it: 84 words.
    pub open spec fn words(self) -> Seq<u32> {
        Seq::new(SNAPSHOT_WORDS as nat, |k: int| self.word(k))
    }

    /// The snapshot's bytes, 336 of them: each word of the layout by its
    /// four bytes, the least significant first. The count lies in bytes
    /// 0 to 3, bytes 4 to 15 are zero, and slot `i` lies in the sixteen bytes
    /// from `16 + 16 * i` on.
    pub open spec fn bytes(self) -> Seq<u8> {
        Seq::new(SNAPSHOT_BYTES as nat, |k: int| word_byte(self.word(k / 4), k % 4))
    }

    /// Lays the snapshot out in words.
    pub fn to_words(&self) -> (words: Vec<u32>)
        ensures
            words@ == self.words(),
    {
        let mut words: Vec<u32> = Vec::with_capacity(SNAPSHOT_WORDS);
        words.push(self.sphere_count);
        words.push(0);
        words.push(0);
        words.push(0);
        let mut i: usize = 0;
        while i < MAX_SPHERES
            invariant
                i <= MAX_SPHERES,
                words@.len() == HEADER_WORDS + SPHERE_WORDS * i,
                forall|k: int| 0 <= k < words@.len() ==> words@[k] == self.word(k),
            decreases MAX_SPHERES - i,
        {
            let sphere = self.spheres[i];
            words.push(sphere.center[0]);
            words.push(sphere.center[1]);
            words.push(sphere.center[2]);
            words.push(sphere.radius);
            i += 1;
        }
        assert(words@ =~= self.words());
        words
    }

    /// Lays the snapshot out in bytes.
    pub fn to_bytes(&self) -> (bytes: Vec<u8>)
        ensures
            bytes@ == self.bytes(),
    {
        let words = self.to_words();
        let mut groups: Vec<[u8; 4]> = Vec::with_capacity(SNAPSHOT_WORDS);
        let mut i: usize = 0;
        while i < SNAPSHOT_WORDS
            invariant
                i <= SNAPSHOT_WORDS,
                words@ == self.words(),
                groups@.len() == i,
                forall|k: int, j: int|
                    0 <= k < i && 0 <= j < 4 ==> #[trigger] groups@[k][j] == word_byte(
                        self.word(k),
                        j,
                    ),
            decreases SNAPSHOT_WORDS - i,
        {
            groups.push(word_bytes(words[i]));
            i += 1;
        }
        let bytes = groups_as_bytes(&groups);
        assert(bytes@ =~= self.bytes());
        bytes
    }
}

/// The frame's upload: the whole snapshot goes to the start of the scene's
/// buffer and fills it, whatever the buffer held.
///
/// The buffer must be one snapshot long: a buffer of another length is an
/// error in the program that made it.
pub fn prepare_spheres(spheres: &ExtractedSpheres, spheres_meta: &SpheresMeta) -> (write:
    BufferWrite)
    requires
        spheres_meta.wf(),
    ensures
        write.buffer == spheres_meta.buffer,
        write.offset == 0,
        write.data@ == spheres.bytes(),
        write.data@.len() == spheres_meta.buffer.size,
{
    BufferWrite { buffer: spheres_meta.buffer, offset: 0, data: spheres.to_bytes() }
}

/// The snapshot of a scene of at most twenty spheres counts them all, holds
/// them in the scene's order in its first slots, and holds the zero sphere
/// in every other slot.
pub proof fn lemma_small_scene_is_kept(snapshot: ExtractedSpheres, source: Spheres)
    requires
        snapshot.is_snapshot_of(source),
        source.spheres@.len() <= MAX_SPHERES,
    ensures
        snapshot.sphere_count == source.spheres@.len(),
        forall|i: int| 0 <= i < source.spheres@.len() ==> snapshot.spheres[i] == source.spheres@[i],
        forall|i: int|
            source.spheres@.len() <= i < MAX_SPHERES ==> snapshot.spheres[i] == Sphere::zero(),
{
}

/// The snapshot of a scene of more than twenty spheres counts twenty and
/// holds the scene's first twenty in the scene's order: no slot is left for
/// a later one.
pub proof fn lemma_large_scene_is_cut(snapshot: ExtractedSpheres, source: Spheres)
    requires
        snapshot.is_snapshot_of(source),
        source.spheres@.len() > MAX_SPHERES,
    ensures
        snapshot.sphere_count == MAX_SPHERES,
        snapshot.spheres@.len() == MAX_SPHERES,
        forall|i: int| 0 <= i < MAX_SPHERES ==> snapshot.spheres[i] == source.spheres@[i],
{
}

/// A scene has one snapshot only: two snapshots of the same scene agree in
/// their count and in every slot.
pub proof fn lemma_snapshot_is_unique(a: ExtractedSpheres, b: ExtractedSpheres, source: Spheres)
    requires
        a.is_snapshot_of(source),
        b.is_snapshot_of(source),
    ensures
        a == b,
        a.bytes() == b.bytes(),
{
    assert(a.spheres =~= b.spheres);
}

/// Where the layout puts what: the count in the first four bytes, zero in
/// the twelve bytes after it, and slot `i` in the sixteen bytes from
/// `16 + 16 * i` on, number by number in the order centre, radius, each
/// number by its four bytes, the least significant first.
pub proof fn lemma_layout_is_aligned(snapshot: ExtractedSpheres)
    ensures
        snapshot.bytes().len() == 336,
        forall|b: int| 0 <= b < 4 ==> snapshot.bytes()[b] == word_byte(snapshot.sphere_count, b),
        forall|k: int| 4 <= k < 16 ==> snapshot.bytes()[k] == 0,
        forall|i: int, j: int, b: int|
            0 <= i < MAX_SPHERES && 0 <= j < 4 && 0 <= b < 4 ==> snapshot.bytes()[16 + 16 * i + 4
                * j + b] == #[trigger] word_byte(snapshot.spheres[i].words()[j], b),
{
    assert forall|i: int, j: int, b: int|
        0 <= i < MAX_SPHERES && 0 <= j < 4 && 0 <= b < 4 implies snapshot.bytes()[16 + 16 * i + 4
        * j + b] == #[trigger] word_byte(snapshot.spheres[i].words()[j], b) by {
        let k = 16 + 16 * i + 4 * j + b;
        assert(k / 4 == 4 + 4 * i + j);
        assert(k % 4 == b);
        assert((4 * i + j) / 4 == i);
        assert((4 * i + j) % 4 == j);
    }
}

/// Whether `write` is the upload of `spheres`: the snapshot's bytes, all of
/// them, to the start of the buffer.
pub open spec fn is_upload_of(write: BufferWrite, spheres: ExtractedSpheres) -> bool {
    write.offset == 0 && write.data@ == spheres.bytes()
}

/// A second upload of the same snapshot leaves a buffer byte for byte as
/// the first did, whatever the buffer held before. In a buffer of one
/// snapshot's length an upload leaves the snapshot's bytes and nothing else.
pub proof fn lemma_upload_is_idempotent(
    spheres: ExtractedSpheres,
    first: BufferWrite,
    second: BufferWrite,
    contents: Seq<u8>,
)
    requires
        is_upload_of(first, spheres),
        is_upload_of(second, spheres),
    ensures
        second.apply(first.apply(contents)) == first.apply(contents),
        contents.len() == SNAPSHOT_BYTES ==> first.apply(contents) == spheres.bytes(),
        contents.len() == SNAPSHOT_BYTES ==> second.apply(first.apply(contents)) == spheres.bytes(),
{
    assert(second.apply(first.apply(contents)) =~= first.apply(contents));
    if contents.len() == SNAPSHOT_BYTES {
        assert(first.apply(contents) =~= spheres.bytes());
    }
}

} // verus!
