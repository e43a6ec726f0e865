use vstd::prelude::*;
use crate::registry::Enumerated;

verus! {

/// The animations that an actor can show.
#[derive(Clone, Copy, Debug, PartialEq, Eq, Structural)]
pub enum AnimationID {
    PlayerIdle,
    PlayerSprint,
    PlayerSlide,
}

impl Enumerated for AnimationID {
    open spec fn count() -> nat {
        3
    }

    open spec fn index_spec(&self) -> nat {
        match self {
            AnimationID::PlayerIdle => 0,
            AnimationID::PlayerSprint => 1,
            AnimationID::PlayerSlide => 2,
        }
    }

    fn index(&self) -> (i: usize) {
        match self {
            AnimationID::PlayerIdle => 0,
            AnimationID::PlayerSprint => 1,
            AnimationID::PlayerSlide => 2,
        }
    }

    fn all() -> (ids: Vec<AnimationID>) {
        let mut ids: Vec<AnimationID> = Vec::new();
        ids.push(AnimationID::PlayerIdle);
        ids.push(AnimationID::PlayerSprint);
        ids.push(AnimationID::PlayerSlide);
        ids
    }
}

/// `asefile::AsepriteFile`: a sprite file that the decoder has parsed. It
/// is handed through as it is; nothing is known of what is inside but what
/// the functions below say.
#[verifier::external_type_specification]
#[verifier::external_body]
pub struct ExAsepriteFile(asefile::AsepriteFile);

/// The milliseconds for which each frame of a parsed sprite file is shown,
/// in the order of the frames.
pub uninterp spec fn ase_durations(file: asefile::AsepriteFile) -> Seq<u32>;

/// `asefile::AsepriteFile::num_frames`: how many frames the file holds. The
/// file counts its frames in sixteen bits and keeps one duration for each
/// of them.
#[verifier::external_body]
fn ase_num_frames(file: &asefile::AsepriteFile) -> (count: u32)
    ensures
        count == ase_durations(*file).len(),
        count <= 0xffff,
{
    file.num_frames()
}

/// `asefile::Frame::duration` of the frame that
/// `asefile::AsepriteFile::frame` hands out for `index`: the milliseconds
/// of that frame, which the file keeps in sixteen bits. `frame` panics
/// unless the index is that of a frame.
#[verifier::external_body]
fn ase_frame_duration(file: &asefile::AsepriteFile, index: u32) -> (duration: u32)
    requires
        index < ase_durations(*file).len(),
    ensures
        duration == ase_durations(*file)[index as int],
        duration <= 0xffff,
{
    file.frame(index).duration()
}

/// The milliseconds that the first `n` frames take together.
pub open spec fn elapsed(durations: Seq<u32>, n: int) -> int
    decreases n,
{
    if n <= 0 {
        0
    } else {
        elapsed(durations, n - 1) + durations[n - 1]
    }
}

/// The milliseconds that one round through all frames takes.
pub open spec fn round_length(durations: Seq<u32>) -> int {
    elapsed(durations, durations.len() as int)
}

/// Whether frame `index` is the one that shows `time` milliseconds into a
/// round: the frames before it are over, and it is not.
pub open spec fn shows_at(durations: Seq<u32>, index: int, time: int) -> bool {
    &&& 0 <= index < durations.len()
    &&& elapsed(durations, index) <= time < elapsed(durations, index + 1)
}

/// The time that passes grows with the number of frames.
pub proof fn lemma_elapsed_grows(durations: Seq<u32>, i: int, j: int)
    requires
        0 <= i <= j,
    ensures
        elapsed(durations, i) <= elapsed(durations, j),
    decreases j - i,
{
    if i < j {
        lemma_elapsed_grows(durations, i, j - 1);
    }
}

/// At any time at most one frame shows.
pub proof fn lemma_one_frame_shows(durations: Seq<u32>, i: int, j: int, time: int)
    requires
        shows_at(durations, i, time),
        shows_at(durations, j, time),
    ensures
        i == j,
{
    if i < j {
        lemma_elapsed_grows(durations, i + 1, j);
    } else if j < i {
        lemma_elapsed_grows(durations, j + 1, i);
    }
}

/// Frames of at most `limit` milliseconds each take at most `limit` times
/// their number together.
proof fn lemma_elapsed_bound(durations: Seq<u32>, n: int, limit: int)
    requires
        0 <= n <= durations.len(),
        forall|i: int| 0 <= i < durations.len() ==> durations[i] <= limit,
    ensures
        elapsed(durations, n) <= n * limit,
    decreases n,
{
    if n > 0 {
        lemma_elapsed_bound(durations, n - 1, limit);
        assert(durations[n - 1] <= limit);
        assert((n - 1) * limit + limit == n * limit) by (nonlinear_arith);
    } else {
        assert(n * limit == 0) by (nonlinear_arith)
            requires
                n == 0,
        ;
    }
}

/// The timing of a sequence of frames that is shown over and over: how
/// long each frame is shown. The pictures of the frames are kept by
/// whoever paints them, in the same order.
pub struct Animation {
    frames: Vec<u32>,
    total_length: u32,
}

impl View for Animation {
    type V = Seq<u32>;

    closed spec fn view(&self) -> Seq<u32> {
        self.frames@
    }
}

impl Animation {
    #[verifier::type_invariant]
    spec fn timed(self) -> bool {
        self.total_length == round_length(self.frames@)
    }

    /// Makes an animation of frames with the given durations, in
    /// milliseconds. Gives nothing if one round would take more
    /// milliseconds than the clock of an animation can hold.
    pub fn from_durations(durations: Vec<u32>) -> (animation: Option<Animation>)
        ensures
            animation is Some <==> round_length(durations@) <= u32::MAX,
            animation matches Some(a) ==> a@ == durations@,
    {
        let mut total_length: u32 = 0;
        let mut index: usize = 0;
        while index < durations.len()
            invariant
                index <= durations@.len(),
                total_length == elapsed(durations@, index as int),
            decreases durations@.len() - index,
        {
            let duration = durations[index];
            assert(elapsed(durations@, index + 1) == elapsed(durations@, index as int)
                + duration);
            if duration > u32::MAX - total_length {
                proof {
                    lemma_elapsed_grows(durations@, index + 1, durations@.len() as int);
                }
                return None;
            }
            total_length = total_length + duration;
            index += 1;
        }
        Some(Animation { frames: durations, total_length })
    }

    /// Takes the timing of an animation from a parsed sprite file: one
    /// frame for each frame of the file, with its duration.
    pub fn from_file(file: &asefile::AsepriteFile) -> (animation: Animation)
        ensures
            animation@ == ase_durations(*file),
    {
        let count = ase_num_frames(file);
        let mut durations: Vec<u32> = Vec::new();
        let mut index: u32 = 0;
        while index < count
            invariant
                index <= count,
                count == ase_durations(*file).len(),
                durations@.len() == index,
                forall|i: int| 0 <= i < index ==> durations@[i] == ase_durations(*file)[i],
                forall|i: int| 0 <= i < index ==> durations@[i] <= 0xffff,
            decreases count - index,
        {
            let duration = ase_frame_duration(file, index);
            durations.push(duration);
            index += 1;
        }
        assert(durations@ =~= ase_durations(*file));
        proof {
            lemma_elapsed_bound(durations@, durations@.len() as int, 0xffff);
            assert(durations@.len() * 0xffff <= 0xffff * 0xffff) by (nonlinear_arith)
                requires
                    durations@.len() <= 0xffff,
            ;
        }
        Animation::from_durations(durations).unwrap()
    }

    /// The milliseconds that one round of the animation takes.
    pub fn total_length(&self) -> (total: u32)
        ensures
            total == round_length(self@),
    {
        proof {
            use_type_invariant(self);
        }
        self.total_length
    }

    /// How many frames the animation has.
    pub fn len(&self) -> (count: usize)
        ensures
            count == self@.len(),
    {
        self.frames.len()
    }

    /// The index of the frame that shows `time` milliseconds after the
    /// animation began, rounds that are over left aside. A round of the
    /// animation must take time.
    pub fn get_at_time(&self, time: u32) -> (index: usize)
        requires
            round_length(self@) > 0,
        ensures
            shows_at(self@, index as int, time as int % round_length(self@)),
    {
        proof {
            use_type_invariant(self);
        }
        let mut left: u32 = time % self.total_length;
        let ghost rest = left;
        let mut index: usize = 0;
        while index < self.frames.len()
            invariant
                index <= self.frames@.len(),
                self@ == self.frames@,
                rest == left + elapsed(self@, index as int),
                rest == time as int % round_length(self@),
                rest < round_length(self@),
            decreases self.frames@.len() - index,
        {
            let length = self.frames[index];
            assert(elapsed(self@, index + 1) == elapsed(self@, index as int) + length);
            if left >= length {
                left = left - length;
            } else {
                return index;
            }
            index += 1;
        }
        assert(false);
        0
    }
}

/// A picture that holds square sprites of one size, side by side and row
/// under row.
pub struct Spritesheet {
    pub sprite_size: u32,
}

/// Where a sprite is cut from its sheet and where it is painted: the
/// corner and the size of the cut, in pixels, and the corner and the size
/// on the screen.
#[derive(Clone, Copy, Debug, PartialEq, Eq, Structural)]
pub struct Sprite {
    pub source_x: u64,
    pub source_y: u64,
    pub source_size: u32,
    pub screen_x: i64,
    pub screen_y: i64,
    pub screen_size: u32,
}

impl Spritesheet {
    pub fn new(sprite_size: u32) -> (sheet: Spritesheet)
        ensures
            sheet.sprite_size == sprite_size,
    {
        Spritesheet { sprite_size }
    }

    /// The sprite in column `tile_x`, row `tile_y` of the sheet, painted
    /// at its own size at (`screen_x`, `screen_y`).
    pub fn draw_sprite(&self, screen_x: i64, screen_y: i64, tile_x: u32, tile_y: u32) -> (sprite:
        Sprite)
        ensures
            sprite == (Sprite {
                source_x: (tile_x * self.sprite_size) as u64,
                source_y: (tile_y * self.sprite_size) as u64,
                source_size: self.sprite_size,
                screen_x,
                screen_y,
                screen_size: self.sprite_size,
            }),
            sprite.source_x == tile_x * self.sprite_size,
            sprite.source_y == tile_y * self.sprite_size,
    {
        assert(tile_x * self.sprite_size <= 0xffff_ffff * 0xffff_ffff) by (nonlinear_arith)
            requires
                0 <= tile_x <= 0xffff_ffff,
                0 <= self.sprite_size <= 0xffff_ffff,
        ;
        assert(tile_y * self.sprite_size <= 0xffff_ffff * 0xffff_ffff) by (nonlinear_arith)
            requires
                0 <= tile_y <= 0xffff_ffff,
                0 <= self.sprite_size <= 0xffff_ffff,
        ;
        Sprite {
            source_x: (tile_x as u64) * (self.sprite_size as u64),
            source_y: (tile_y as u64) * (self.sprite_size as u64),
            source_size: self.sprite_size,
            screen_x,
            screen_y,
            screen_size: self.sprite_size,
        }
    }
}

} // verus!
