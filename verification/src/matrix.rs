//! The 5x5 light matrix of the motor application.
use crate::plan::Plan;
use crate::tlc5955::{frame_level, matrix_frame_acts, send_matrix_frame, FRAME};
use vstd::prelude::*;

verus! {

/// Lights of the matrix, row by row.
pub const PIXELS: usize = 25;

/// Channel of each light.
pub const LED_CHANNELS: [u8; PIXELS] = [
    38, 36, 41, 46, 33,
    37, 28, 39, 47, 21,
    24, 29, 31, 45, 23,
    26, 27, 32, 34, 22,
    25, 40, 30, 35, 9,
];

/// Pictures, row by row; 1 is lit.
pub const HEART: [u8; PIXELS] = [
    0, 1, 0, 1, 0,
    1, 1, 1, 1, 1,
    1, 1, 1, 1, 1,
    0, 1, 1, 1, 0,
    0, 0, 1, 0, 0,
];

pub const PAUSE: [u8; PIXELS] = [
    0, 1, 0, 1, 0,
    0, 1, 0, 1, 0,
    0, 1, 0, 1, 0,
    0, 1, 0, 1, 0,
    0, 1, 0, 1, 0,
];

pub const CHECK: [u8; PIXELS] = [
    0, 0, 0, 0, 1,
    0, 0, 0, 1, 0,
    0, 0, 1, 0, 0,
    1, 0, 1, 0, 0,
    0, 1, 0, 0, 0,
];

/// Channel of a light.
pub open spec fn led_channel(pixel: int) -> int {
    LED_CHANNELS@[pixel] as int
}

/// The light on a channel; 25 where the channel has none in the matrix.
pub open spec fn pixel_on(ch: int) -> int {
    if ch == 9 {
        24
    } else if ch == 21 {
        9
    } else if ch == 22 {
        19
    } else if ch == 23 {
        14
    } else if ch == 24 {
        10
    } else if ch == 25 {
        20
    } else if ch == 26 {
        15
    } else if ch == 27 {
        16
    } else if ch == 28 {
        6
    } else if ch == 29 {
        11
    } else if ch == 30 {
        22
    } else if ch == 31 {
        12
    } else if ch == 32 {
        17
    } else if ch == 33 {
        4
    } else if ch == 34 {
        18
    } else if ch == 35 {
        23
    } else if ch == 36 {
        1
    } else if ch == 37 {
        5
    } else if ch == 38 {
        0
    } else if ch == 39 {
        7
    } else if ch == 40 {
        21
    } else if ch == 41 {
        2
    } else if ch == 45 {
        13
    } else if ch == 46 {
        3
    } else if ch == 47 {
        8
    } else {
        25
    }
}

/// No two lights share a channel.
pub proof fn channels_are_distinct(pixel: int)
    requires
        0 <= pixel < PIXELS,
    ensures
        0 <= led_channel(pixel) < 48,
        pixel_on(led_channel(pixel)) == pixel,
{
}

/// Only the channels of the matrix have a light in it.
pub proof fn lights_have_channels(ch: int)
    ensures
        0 <= pixel_on(ch) <= PIXELS,
        pixel_on(ch) < PIXELS ==> led_channel(pixel_on(ch)) == ch,
{
}

// ---------------------------------------------------------------------------
// Lights
// ---------------------------------------------------------------------------

/// The level of a brightness, which runs from 0 to 100: the square of it, as the
/// eye wants it, cut off at full level.
pub open spec fn pixel_level(brightness: u16) -> u16 {
    let level = 65535 * brightness * brightness / 10000;
    if level > 65535 {
        65535
    } else {
        level as u16
    }
}

/// The light that a byte of the frame belongs to; 25 where it belongs to none.
pub open spec fn pixel_at(k: int) -> int {
    if k < 1 {
        25
    } else {
        pixel_on((k - 1) / 2)
    }
}

/// The byte of a level: odd positions hold the high one.
pub open spec fn level_byte(level: u16, k: int) -> u8 {
    if k % 2 == 1 {
        (level / 256) as u8
    } else {
        (level % 256) as u8
    }
}

/// A frame in which the lights below `n` have a new brightness.
pub open spec fn painted(frame: Seq<u8>, brightness: spec_fn(int) -> u16, n: int) -> Seq<u8> {
    Seq::new(
        frame.len(),
        |k: int|
            if pixel_at(k) < n && pixel_at(k) < PIXELS {
                level_byte(pixel_level(brightness(pixel_at(k))), k)
            } else {
                frame[k]
            },
    )
}

/// A frame in which one light has a new brightness.
pub open spec fn lit(frame: Seq<u8>, pixel: int, brightness: u16) -> Seq<u8> {
    if 0 <= pixel < PIXELS {
        frame.update(2 * led_channel(pixel) + 1, (pixel_level(brightness) / 256) as u8).update(
            2 * led_channel(pixel) + 2,
            (pixel_level(brightness) % 256) as u8,
        )
    } else {
        frame
    }
}

/// Lighting the next light of a picture paints one more of it.
proof fn lit_paints(frame: Seq<u8>, brightness: spec_fn(int) -> u16, pixel: int)
    requires
        frame.len() == FRAME,
        0 <= pixel < PIXELS,
    ensures
        lit(painted(frame, brightness, pixel), pixel, brightness(pixel)) == painted(
            frame,
            brightness,
            pixel + 1,
        ),
{
    let a = lit(painted(frame, brightness, pixel), pixel, brightness(pixel));
    let b = painted(frame, brightness, pixel + 1);
    channels_are_distinct(pixel);
    assert forall|k: int| 0 <= k < FRAME implies a[k] == b[k] by {
        lights_have_channels((k - 1) / 2);
        if k >= 1 && pixel_at(k) == pixel {
            assert((k - 1) / 2 == led_channel(pixel));
        }
    }
    assert(a =~= b);
}

/// The frame of the matrix.
pub struct Matrix {
    pub frame: [u8; FRAME],
}

impl Matrix {
    /// All lights off.
    pub fn new() -> (m: Matrix)
        ensures
            m.frame@ == Seq::new(FRAME as nat, |k: int| 0u8),
    {
        let m: Matrix = Matrix { frame: [0; FRAME] };
        assert(m.frame@ =~= Seq::new(FRAME as nat, |k: int| 0u8));
        m
    }

    /// Gives a light a brightness; nothing happens for one that does not exist.
    pub fn led_set_pixel(&mut self, index: usize, brightness: u16)
        requires
            index < PIXELS ==> brightness <= 256,
        ensures
            final(self).frame@ == lit(old(self).frame@, index as int, brightness),
    {
        if index >= PIXELS {
            return;
        }
        let ch: usize = LED_CHANNELS[index] as usize;
        proof {
            channels_are_distinct(index as int);
            assert(65535 * brightness <= 65535 * 256);
            assert(65535 * brightness * brightness <= 65535 * 256 * 256) by (nonlinear_arith)
                requires
                    brightness <= 256,
            ;
        }
        let wide: u32 = 65535 * (brightness as u32) * (brightness as u32) / 10000;
        let duty: u16 = if wide > 65535 {
            65535
        } else {
            wide as u16
        };
        self.frame[ch * 2 + 1] = (duty / 256) as u8;
        self.frame[ch * 2 + 2] = (duty % 256) as u8;
    }

    /// Sends the frame to the driver.
    pub fn led_update(&self) -> (p: Plan)
        ensures
            p@ == matrix_frame_acts(self.frame@),
    {
        send_matrix_frame(self.frame.as_slice())
    }

    /// Shows a picture: its lit lights at a brightness, the others off.
    pub fn show_pattern(&mut self, pattern: &[u8; PIXELS], brightness: u16) -> (p: Plan)
        requires
            brightness <= 256,
        ensures
            final(self).frame@ == painted(
                old(self).frame@,
                pattern_brightness(pattern@, brightness),
                PIXELS as int,
            ),
            p@ == matrix_frame_acts(final(self).frame@),
    {
        let ghost start = self.frame@;
        let ghost f = pattern_brightness(pattern@, brightness);
        assert(painted(start, f, 0) =~= start) by {
            assert forall|k: int| 0 <= k < FRAME implies pixel_at(k) >= 0 by {
                lights_have_channels((k - 1) / 2);
            }
        }
        let mut i: usize = 0;
        while i < PIXELS
            invariant
                i <= PIXELS,
                brightness <= 256,
                start.len() == FRAME,
                f == pattern_brightness(pattern@, brightness),
                self.frame@ == painted(start, f, i as int),
            decreases PIXELS - i,
        {
            let b: u16 = if pattern[i] != 0 {
                brightness
            } else {
                0
            };
            proof {
                lit_paints(start, f, i as int);
            }
            self.led_set_pixel(i, b);
            i = i + 1;
        }
        self.led_update()
    }

    /// Shows the pause sign.
    pub fn show_paused_led(&mut self) -> (p: Plan)
        ensures
            final(self).frame@ == painted(
                old(self).frame@,
                pattern_brightness(PAUSE@, 50),
                PIXELS as int,
            ),
            p@ == matrix_frame_acts(final(self).frame@),
    {
        self.show_pattern(&PAUSE, 50)
    }

    /// Shows a speed as a bar in the middle column.
    pub fn show_speed_led(&mut self, speed: i16) -> (p: Plan)
        ensures
            final(self).frame@ == painted(
                old(self).frame@,
                speed_brightness(speed),
                PIXELS as int,
            ),
            p@ == matrix_frame_acts(final(self).frame@),
    {
        let ghost start = self.frame@;
        let ghost f = speed_brightness(speed);
        assert(painted(start, f, 0) =~= start) by {
            assert forall|k: int| 0 <= k < FRAME implies pixel_at(k) >= 0 by {
                lights_have_channels((k - 1) / 2);
            }
        }
        let level: usize = bar_length(speed);
        let mut i: usize = 0;
        while i < PIXELS
            invariant
                i <= PIXELS,
                level == speed_level(speed),
                start.len() == FRAME,
                f == speed_brightness(speed),
                self.frame@ == painted(start, f, i as int),
            decreases PIXELS - i,
        {
            let b: u16 = if i % 5 != 2 {
                0
            } else if speed > 0 {
                if i / 5 + level >= 5 {
                    60
                } else {
                    0
                }
            } else if speed < 0 {
                if i / 5 < level {
                    60
                } else {
                    0
                }
            } else if i == 12 {
                20
            } else {
                0
            };
            proof {
                lit_paints(start, f, i as int);
            }
            self.led_set_pixel(i, b);
            i = i + 1;
        }
        self.led_update()
    }
}

/// Brightness of the lights of a picture.
pub open spec fn pattern_brightness(pattern: Seq<u8>, brightness: u16) -> spec_fn(int) -> u16 {
    |i: int|
        if pattern[i] != 0 {
            brightness
        } else {
            0u16
        }
}

/// Length of the bar for a speed: a light for every 200, rounded, at most five.
pub open spec fn speed_level(speed: i16) -> int {
    let size = if speed < 0 {
        -speed
    } else {
        speed as int
    };
    if (size + 100) / 200 > 5 {
        5
    } else {
        (size + 100) / 200
    }
}

fn bar_length(speed: i16) -> (n: usize)
    ensures
        n == speed_level(speed),
{
    let size: u32 = if speed < 0 {
        (-(speed as i32)) as u32
    } else {
        speed as u32
    };
    let level: u32 = (size + 100) / 200;
    if level > 5 {
        5
    } else {
        level as usize
    }
}

/// Brightness of the lights for a speed: forward grows up from the lowest row,
/// reverse grows down from the highest, and a dim dot means standstill.
pub open spec fn speed_brightness(speed: i16) -> spec_fn(int) -> u16 {
    |i: int|
        if i % 5 != 2 {
            0u16
        } else if speed > 0 {
            if i / 5 + speed_level(speed) >= 5 {
                60u16
            } else {
                0u16
            }
        } else if speed < 0 {
            if i / 5 < speed_level(speed) {
                60u16
            } else {
                0u16
            }
        } else if i == 12 {
            20u16
        } else {
            0u16
        }
}

// ---------------------------------------------------------------------------
// What the matrix shows
// ---------------------------------------------------------------------------

/// Lighting one light sets its level and keeps every other light.
pub proof fn lights_are_independent(frame: Seq<u8>, pixel: int, brightness: u16, q: int)
    requires
        frame.len() == FRAME,
        0 <= pixel < PIXELS,
        0 <= q < PIXELS,
    ensures
        ({
            let after = lit(frame, pixel, brightness);
            frame_level(after, led_channel(q)) == if q == pixel {
                pixel_level(brightness) as int
            } else {
                frame_level(frame, led_channel(q))
            }
        }),
{
    channels_are_distinct(pixel);
    channels_are_distinct(q);
}

/// Once a picture is shown, every light has the level of its brightness, and no
/// channel outside the matrix has changed.
pub proof fn picture_is_shown(frame: Seq<u8>, brightness: spec_fn(int) -> u16, ch: int)
    requires
        frame.len() == FRAME,
        0 <= ch < 48,
    ensures
        ({
            let after = painted(frame, brightness, PIXELS as int);
            frame_level(after, ch) == if pixel_on(ch) < PIXELS {
                pixel_level(brightness(pixel_on(ch))) as int
            } else {
                frame_level(frame, ch)
            }
        }),
{
    lights_have_channels(ch);
    assert(pixel_at(2 * ch + 1) == pixel_on(ch));
    assert(pixel_at(2 * ch + 2) == pixel_on(ch));
}

/// Brighter is never darker, and 100 is full level.
pub proof fn brightness_is_monotone(a: u16, b: u16)
    requires
        a <= b,
    ensures
        pixel_level(a) <= pixel_level(b),
        b >= 100 ==> pixel_level(b) == 65535,
{
    let x = 65535 * a * a;
    let y = 65535 * b * b;
    assert(x <= y) by (nonlinear_arith)
        requires
            x == 65535 * a * a,
            y == 65535 * b * b,
            a <= b,
    ;
    assert(b >= 100 ==> y >= 655_350_000) by (nonlinear_arith)
        requires
            y == 65535 * b * b,
    ;
}

/// A faster motor has no shorter bar, and full speed fills the column.
pub proof fn bar_grows_with_speed(a: i16, b: i16)
    requires
        0 <= a <= b,
    ensures
        speed_level(a) <= speed_level(b) <= 5,
        b >= 900 ==> speed_level(b) == 5,
{
}

// ---------------------------------------------------------------------------
// The matrix in numbers
// ---------------------------------------------------------------------------

/// The channels of the lights, row by row, and the three pictures.
pub proof fn lights_and_pictures()
    ensures
        LED_CHANNELS@ == seq![
            38u8, 36, 41, 46, 33,
            37, 28, 39, 47, 21,
            24, 29, 31, 45, 23,
            26, 27, 32, 34, 22,
            25, 40, 30, 35, 9,
        ],
        HEART@ == seq![
            0u8, 1, 0, 1, 0,
            1, 1, 1, 1, 1,
            1, 1, 1, 1, 1,
            0, 1, 1, 1, 0,
            0, 0, 1, 0, 0,
        ],
        PAUSE@ == seq![
            0u8, 1, 0, 1, 0,
            0, 1, 0, 1, 0,
            0, 1, 0, 1, 0,
            0, 1, 0, 1, 0,
            0, 1, 0, 1, 0,
        ],
        CHECK@ == seq![
            0u8, 0, 0, 0, 1,
            0, 0, 0, 1, 0,
            0, 0, 1, 0, 0,
            1, 0, 1, 0, 0,
            0, 1, 0, 0, 0,
        ],
{
}

/// The level of a brightness is 65535 times the square of its hundredth, rounded down, and
/// full from 100 on.
pub proof fn level_is_square(b: u16)
    ensures
        b <= 100 ==> pixel_level(b) * 10000 <= 65535 * (b * b) && 65535 * (b * b) < (pixel_level(b)
            + 1) * 10000,
        b >= 100 ==> pixel_level(b) == 65535,
{
    brightness_is_monotone(b, b);
    let n = b as int;
    assert(65535 * n * n == 65535 * (n * n)) by (nonlinear_arith);
    if b <= 100 {
        assert(0 <= n * n <= 10000) by (nonlinear_arith)
            requires
                0 <= n <= 100,
        ;
    }
}

/// A picture has its brightness where it is not zero, and is dark elsewhere.
pub proof fn pictures_are_lit(pattern: Seq<u8>, b: u16, i: int)
    ensures
        pattern_brightness(pattern, b)(i) == if pattern[i] == 0 {
            0
        } else {
            b
        },
{
}

/// The bar of a speed stands in the middle column. Forward it has as many lights from the
/// lowest row up as the speed has two hundreds, rounded; in reverse as many from the highest
/// row down; they have a brightness of 60. Standstill is the middle light alone, at 20.
pub proof fn speed_bar(speed: i16, i: int)
    requires
        0 <= i < 25,
    ensures
        speed_brightness(speed)(i) == if i % 5 != 2 {
            0
        } else if speed > 0 {
            if speed + 100 >= 200 * (5 - i / 5) {
                60
            } else {
                0
            }
        } else if speed < 0 {
            if -speed + 100 >= 200 * (i / 5 + 1) {
                60
            } else {
                0
            }
        } else if i == 12 {
            20
        } else {
            0int
        },
{
}

} // verus!
