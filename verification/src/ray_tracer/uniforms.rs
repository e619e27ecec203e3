//! The block of parameters that the shader reads, and its bytes.

use vstd::prelude::*;
use crate::bits32;
use crate::ray_tracer::units::V3;

verus! {

/// The number of words in the block.
pub const UNIFORM_WORDS: usize = 28;

/// The radius of the camera's lens (0.035).
pub const CAMERA_LENS_RADIUS: u32 = 0x3d0f_5c29;

/// A camera axis no longer than this (1e-8) has no direction.
pub const NULL_AXIS: u32 = 0x322b_cc77;

/// The camera, in single-precision patterns.
#[derive(Clone, Copy, PartialEq, Eq, Structural, Debug)]
pub struct Camera {
    pub eye: V3,
    pub forward: V3,
    pub right: V3,
    pub up: V3,
    pub tan_half_fov_x: u32,
    pub tan_half_fov_y: u32,
    pub focus_dist: u32,
}

/// The parameters: seven groups of four words. All are single-precision
/// patterns but the seed data, which are numbers.
#[derive(Clone, Copy, Debug)]
pub struct Uniforms {
    pub resolution: [u32; 4],
    pub seed_data: [u32; 4],
    pub cam_eye: [u32; 4],
    pub cam_forward: [u32; 4],
    pub cam_right: [u32; 4],
    pub cam_up: [u32; 4],
    pub cam_params: [u32; 4],
}

impl Uniforms {
    /// The words of the block, in the order in which the shader declares them.
    pub open spec fn words(self) -> Seq<u32> {
        self.resolution@ + self.seed_data@ + self.cam_eye@ + self.cam_forward@ + self.cam_right@
            + self.cam_up@ + self.cam_params@
    }

    /// Whether the block describes a picture of the given size (in
    /// single-precision patterns) with the given seed data and camera.
    pub open spec fn describes(self, w: u32, h: u32, seeds: [u32; 4], cam: Camera) -> bool {
        &&& self.resolution@ == seq![w, h, bits32::ZERO, bits32::ZERO]
        &&& self.seed_data == seeds
        &&& self.cam_eye@ == padded(cam.eye)
        &&& self.cam_forward@ == padded(cam.forward)
        &&& self.cam_right@ == padded(cam.right)
        &&& self.cam_up@ == padded(cam.up)
        &&& self.cam_params@ == seq![
            cam.tan_half_fov_x,
            cam.tan_half_fov_y,
            cam.focus_dist,
            CAMERA_LENS_RADIUS,
        ]
    }
}

/// A vector in a group of four words.
pub open spec fn padded(v: V3) -> Seq<u32> {
    seq![v.x, v.y, v.z, bits32::ZERO]
}

/// Byte `j` of a word, counted from the least significant.
pub open spec fn byte_of(word: u32, j: int) -> u8 {
    if j == 0 {
        (word % 0x100) as u8
    } else if j == 1 {
        (word / 0x100 % 0x100) as u8
    } else if j == 2 {
        (word / 0x1_0000 % 0x100) as u8
    } else {
        (word / 0x100_0000) as u8
    }
}

/// The bytes of some words, the least significant byte of each word first.
pub open spec fn little_endian(words: Seq<u32>) -> Seq<u8> {
    Seq::new(4 * words.len(), |k: int| byte_of(words[k / 4], k % 4))
}

/// The bytes of some words, the most significant byte of each word first.
pub open spec fn big_endian(words: Seq<u32>) -> Seq<u8> {
    Seq::new(4 * words.len(), |k: int| byte_of(words[k / 4], 3 - k % 4))
}

/// `bytemuck::bytes_of`, for the words of the block: the bytes that the words
/// occupy in memory, one word after another. Which byte of a word comes first
/// is the machine's choice, and the same for all words.
#[verifier::external_body]
fn bytes_of_words(words: &[u32; 28]) -> (r: Vec<u8>)
    ensures
        r@ == little_endian(words@) || r@ == big_endian(words@),
{
    bytemuck::bytes_of(words).to_vec()
}

/// The bytes of the block, as they are written to the shader's buffer.
pub fn uniform_bytes(u: &Uniforms) -> (r: Vec<u8>)
    ensures
        r@ == little_endian(u.words()) || r@ == big_endian(u.words()),
        r@.len() == 4 * UNIFORM_WORDS,
{
    let words: [u32; 28] = [
        u.resolution[0],
        u.resolution[1],
        u.resolution[2],
        u.resolution[3],
        u.seed_data[0],
        u.seed_data[1],
        u.seed_data[2],
        u.seed_data[3],
        u.cam_eye[0],
        u.cam_eye[1],
        u.cam_eye[2],
        u.cam_eye[3],
        u.cam_forward[0],
        u.cam_forward[1],
        u.cam_forward[2],
        u.cam_forward[3],
        u.cam_right[0],
        u.cam_right[1],
        u.cam_right[2],
        u.cam_right[3],
        u.cam_up[0],
        u.cam_up[1],
        u.cam_up[2],
        u.cam_up[3],
        u.cam_params[0],
        u.cam_params[1],
        u.cam_params[2],
        u.cam_params[3],
    ];
    assert(words@ =~= u.words());
    bytes_of_words(&words)
}

/// Whether a length is enough for the direction of a camera axis.
pub open spec fn axis_is_long(length: u32) -> bool {
    !bits32::at_most(length, NULL_AXIS)
}

/// Whether a camera axis of this length has a direction, so that it can be
/// brought to unit length; it is left as it is otherwise.
pub fn axis_has_direction(length: u32) -> (r: bool)
    ensures
        r == axis_is_long(length),
{
    !bits32::le(length, NULL_AXIS)
}

/// A word is the sum of its bytes, each at its place.
proof fn word_of_bytes(a: u32)
    ensures
        a == byte_of(a, 0) + 0x100 * byte_of(a, 1) + 0x1_0000 * byte_of(a, 2) + 0x100_0000
            * byte_of(a, 3),
{
    assert(a == a % 0x100 + 0x100 * (a / 0x100 % 0x100) + 0x1_0000 * (a / 0x1_0000 % 0x100)
        + 0x100_0000 * (a / 0x100_0000) && a / 0x100_0000 < 0x100) by (bit_vector);
}

/// Four bytes make up their word again, whichever comes first.
pub proof fn bytes_determine_the_word(a: u32, b: u32)
    requires
        forall|j: int| 0 <= j < 4 ==> #[trigger] byte_of(a, j) == byte_of(b, j),
    ensures
        a == b,
{
    word_of_bytes(a);
    word_of_bytes(b);
}

/// The bytes determine the words: nothing of a block is lost on the way to the
/// shader.
pub proof fn bytes_determine_the_block(a: Seq<u32>, b: Seq<u32>)
    requires
        little_endian(a) == little_endian(b) || big_endian(a) == big_endian(b),
    ensures
        a == b,
{
    if little_endian(a) == little_endian(b) {
        assert(little_endian(a).len() == little_endian(b).len());
    } else {
        assert(big_endian(a).len() == big_endian(b).len());
    }
    assert forall|i: int| 0 <= i < a.len() implies a[i] == b[i] by {
        assert forall|j: int| 0 <= j < 4 implies #[trigger] byte_of(a[i], j) == byte_of(b[i], j) by {
            if little_endian(a) == little_endian(b) {
                let k = 4 * i + j;
                assert(k / 4 == i && k % 4 == j);
                assert(little_endian(a)[k] == little_endian(b)[k]);
            } else {
                let k = 4 * i + (3 - j);
                assert(k / 4 == i && k % 4 == 3 - j);
                assert(big_endian(a)[k] == big_endian(b)[k]);
            }
        }
        bytes_determine_the_word(a[i], b[i]);
    }
    assert(a =~= b);
}

/// The word in four bytes from a place on, the least significant byte first.
pub open spec fn word_from_little(bytes: Seq<u8>, at: int) -> int {
    bytes[at] + 0x100 * bytes[at + 1] + 0x1_0000 * bytes[at + 2] + 0x100_0000 * bytes[at + 3]
}

/// The word in four bytes from a place on, the most significant byte first.
pub open spec fn word_from_big(bytes: Seq<u8>, at: int) -> int {
    bytes[at + 3] + 0x100 * bytes[at + 2] + 0x1_0000 * bytes[at + 1] + 0x100_0000 * bytes[at]
}

/// Each word can be read back from its four bytes.
proof fn word_is_read_back(words: Seq<u32>, i: int)
    requires
        0 <= i < words.len(),
    ensures
        word_from_little(little_endian(words), 4 * i) == words[i],
        word_from_big(big_endian(words), 4 * i) == words[i],
{
    word_of_bytes(words[i]);
}

/// Each field is where the shader looks for it: the size in bytes 0 to 15, the
/// seed data from 16 on, the eye from 32, the forward axis from 48, the right axis
/// from 64, the up axis from 80 and the optics from 96, four words each.
pub proof fn fields_are_at_their_places(u: Uniforms, bytes: Seq<u8>)
    requires
        bytes == little_endian(u.words()),
    ensures
        bytes.len() == 112,
        word_from_little(bytes, 0) == u.resolution@[0],
        word_from_little(bytes, 4) == u.resolution@[1],
        word_from_little(bytes, 8) == u.resolution@[2],
        word_from_little(bytes, 12) == u.resolution@[3],
        word_from_little(bytes, 16) == u.seed_data@[0],
        word_from_little(bytes, 20) == u.seed_data@[1],
        word_from_little(bytes, 24) == u.seed_data@[2],
        word_from_little(bytes, 28) == u.seed_data@[3],
        word_from_little(bytes, 32) == u.cam_eye@[0],
        word_from_little(bytes, 36) == u.cam_eye@[1],
        word_from_little(bytes, 40) == u.cam_eye@[2],
        word_from_little(bytes, 44) == u.cam_eye@[3],
        word_from_little(bytes, 48) == u.cam_forward@[0],
        word_from_little(bytes, 52) == u.cam_forward@[1],
        word_from_little(bytes, 56) == u.cam_forward@[2],
        word_from_little(bytes, 60) == u.cam_forward@[3],
        word_from_little(bytes, 64) == u.cam_right@[0],
        word_from_little(bytes, 68) == u.cam_right@[1],
        word_from_little(bytes, 72) == u.cam_right@[2],
        word_from_little(bytes, 76) == u.cam_right@[3],
        word_from_little(bytes, 80) == u.cam_up@[0],
        word_from_little(bytes, 84) == u.cam_up@[1],
        word_from_little(bytes, 88) == u.cam_up@[2],
        word_from_little(bytes, 92) == u.cam_up@[3],
        word_from_little(bytes, 96) == u.cam_params@[0],
        word_from_little(bytes, 100) == u.cam_params@[1],
        word_from_little(bytes, 104) == u.cam_params@[2],
        word_from_little(bytes, 108) == u.cam_params@[3],
{
    word_is_read_back(u.words(), 0);
    word_is_read_back(u.words(), 1);
    word_is_read_back(u.words(), 2);
    word_is_read_back(u.words(), 3);
    word_is_read_back(u.words(), 4);
    word_is_read_back(u.words(), 5);
    word_is_read_back(u.words(), 6);
    word_is_read_back(u.words(), 7);
    word_is_read_back(u.words(), 8);
    word_is_read_back(u.words(), 9);
    word_is_read_back(u.words(), 10);
    word_is_read_back(u.words(), 11);
    word_is_read_back(u.words(), 12);
    word_is_read_back(u.words(), 13);
    word_is_read_back(u.words(), 14);
    word_is_read_back(u.words(), 15);
    word_is_read_back(u.words(), 16);
    word_is_read_back(u.words(), 17);
    word_is_read_back(u.words(), 18);
    word_is_read_back(u.words(), 19);
    word_is_read_back(u.words(), 20);
    word_is_read_back(u.words(), 21);
    word_is_read_back(u.words(), 22);
    word_is_read_back(u.words(), 23);
    word_is_read_back(u.words(), 24);
    word_is_read_back(u.words(), 25);
    word_is_read_back(u.words(), 26);
    word_is_read_back(u.words(), 27);
}

/// The same on a machine that stores the most significant byte first.
pub proof fn fields_are_at_their_places_reversed(u: Uniforms, bytes: Seq<u8>)
    requires
        bytes == big_endian(u.words()),
    ensures
        bytes.len() == 112,
        word_from_big(bytes, 0) == u.resolution@[0],
        word_from_big(bytes, 4) == u.resolution@[1],
        word_from_big(bytes, 8) == u.resolution@[2],
        word_from_big(bytes, 12) == u.resolution@[3],
        word_from_big(bytes, 16) == u.seed_data@[0],
        word_from_big(bytes, 20) == u.seed_data@[1],
        word_from_big(bytes, 24) == u.seed_data@[2],
        word_from_big(bytes, 28) == u.seed_data@[3],
        word_from_big(bytes, 32) == u.cam_eye@[0],
        word_from_big(bytes, 36) == u.cam_eye@[1],
        word_from_big(bytes, 40) == u.cam_eye@[2],
        word_from_big(bytes, 44) == u.cam_eye@[3],
        word_from_big(bytes, 48) == u.cam_forward@[0],
        word_from_big(bytes, 52) == u.cam_forward@[1],
        word_from_big(bytes, 56) == u.cam_forward@[2],
        word_from_big(bytes, 60) == u.cam_forward@[3],
        word_from_big(bytes, 64) == u.cam_right@[0],
        word_from_big(bytes, 68) == u.cam_right@[1],
        word_from_big(bytes, 72) == u.cam_right@[2],
        word_from_big(bytes, 76) == u.cam_right@[3],
        word_from_big(bytes, 80) == u.cam_up@[0],
        word_from_big(bytes, 84) == u.cam_up@[1],
        word_from_big(bytes, 88) == u.cam_up@[2],
        word_from_big(bytes, 92) == u.cam_up@[3],
        word_from_big(bytes, 96) == u.cam_params@[0],
        word_from_big(bytes, 100) == u.cam_params@[1],
        word_from_big(bytes, 104) == u.cam_params@[2],
        word_from_big(bytes, 108) == u.cam_params@[3],
{
    word_is_read_back(u.words(), 0);
    word_is_read_back(u.words(), 1);
    word_is_read_back(u.words(), 2);
    word_is_read_back(u.words(), 3);
    word_is_read_back(u.words(), 4);
    word_is_read_back(u.words(), 5);
    word_is_read_back(u.words(), 6);
    word_is_read_back(u.words(), 7);
    word_is_read_back(u.words(), 8);
    word_is_read_back(u.words(), 9);
    word_is_read_back(u.words(), 10);
    word_is_read_back(u.words(), 11);
    word_is_read_back(u.words(), 12);
    word_is_read_back(u.words(), 13);
    word_is_read_back(u.words(), 14);
    word_is_read_back(u.words(), 15);
    word_is_read_back(u.words(), 16);
    word_is_read_back(u.words(), 17);
    word_is_read_back(u.words(), 18);
    word_is_read_back(u.words(), 19);
    word_is_read_back(u.words(), 20);
    word_is_read_back(u.words(), 21);
    word_is_read_back(u.words(), 22);
    word_is_read_back(u.words(), 23);
    word_is_read_back(u.words(), 24);
    word_is_read_back(u.words(), 25);
    word_is_read_back(u.words(), 26);
    word_is_read_back(u.words(), 27);
}

/// What the shader reads is the picture's size, the seeds of the pass and the
/// camera, each in its place, with the lens of the camera at the end and zeros in
/// between.
pub proof fn parameters_reach_the_shader(
    u: Uniforms,
    w: u32,
    h: u32,
    seeds: [u32; 4],
    cam: Camera,
    bytes: Seq<u8>,
)
    requires
        u.describes(w, h, seeds, cam),
        bytes == little_endian(u.words()),
    ensures
        word_from_little(bytes, 0) == w,
        word_from_little(bytes, 4) == h,
        word_from_little(bytes, 8) == 0,
        word_from_little(bytes, 12) == 0,
        word_from_little(bytes, 16) == seeds@[0],
        word_from_little(bytes, 20) == seeds@[1],
        word_from_little(bytes, 24) == seeds@[2],
        word_from_little(bytes, 28) == seeds@[3],
        word_from_little(bytes, 32) == cam.eye.x,
        word_from_little(bytes, 36) == cam.eye.y,
        word_from_little(bytes, 40) == cam.eye.z,
        word_from_little(bytes, 44) == 0,
        word_from_little(bytes, 48) == cam.forward.x,
        word_from_little(bytes, 52) == cam.forward.y,
        word_from_little(bytes, 56) == cam.forward.z,
        word_from_little(bytes, 60) == 0,
        word_from_little(bytes, 64) == cam.right.x,
        word_from_little(bytes, 68) == cam.right.y,
        word_from_little(bytes, 72) == cam.right.z,
        word_from_little(bytes, 76) == 0,
        word_from_little(bytes, 80) == cam.up.x,
        word_from_little(bytes, 84) == cam.up.y,
        word_from_little(bytes, 88) == cam.up.z,
        word_from_little(bytes, 92) == 0,
        word_from_little(bytes, 96) == cam.tan_half_fov_x,
        word_from_little(bytes, 100) == cam.tan_half_fov_y,
        word_from_little(bytes, 104) == cam.focus_dist,
        word_from_little(bytes, 108) == 0x3d0f_5c29,
{
    fields_are_at_their_places(u, bytes);
}

/// Only an axis no longer than 1e-8 is too short for a direction, and none whose
/// length is not a number is.
pub proof fn short_axes_have_no_direction(length: u32)
    ensures
        !axis_is_long(length) <==> bits32::at_most(length, 0x322b_cc77),
        bits32::is_nan(length) ==> axis_is_long(length),
{
}

} // verus!
