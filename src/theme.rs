//! Settings read from the UI theme: animation speeds, animation frames and
//! icons. Values that would break the session are ignored.
use crate::session::{IndicatorAnim, PrivateData, WiFiIcon};
use vstd::prelude::*;
use vstd::string::*;

verus! {

/// The fastest animation allowed, in frames per second.
pub const MAX_FPS: i32 = 60;

/// The glyph used for an empty icon setting.
pub const MISSING_GLYPH: char = '\u{fffc}';

/// The first character of a setting, or the placeholder glyph.
pub open spec fn glyph_of(s: Seq<char>) -> char {
    if s.len() > 0 {
        s[0]
    } else {
        MISSING_GLYPH
    }
}

fn glyphs(settings: &Vec<String>) -> (r: Vec<char>)
    ensures
        r.len() == settings.len(),
        forall|i: int| 0 <= i < r.len() ==> r@[i] == glyph_of(#[trigger] settings@[i]@),
{
    let mut r: Vec<char> = Vec::new();
    let mut i: usize = 0;
    while i < settings.len()
        invariant
            i <= settings.len(),
            r.len() == i,
            forall|j: int| 0 <= j < i ==> r@[j] == glyph_of(#[trigger] settings@[j]@),
        decreases settings.len() - i,
    {
        let s = settings[i].as_str();
        if s.unicode_len() > 0 {
            r.push(s.get_char(0));
        } else {
            r.push(MISSING_GLYPH);
        }
        i += 1;
    }
    r
}

impl PrivateData {
    /// Sets the scan animation's speed, if it is from 1 to 60.
    pub fn set_scan_fps(&mut self, fps: i32)
        requires
            old(self).wf(),
        ensures
            final(self).wf(),
            *final(self) == if 0 < fps <= MAX_FPS {
                PrivateData {
                    anim_scan: IndicatorAnim { fps: fps as u8, ..old(self).anim_scan },
                    ..*old(self)
                }
            } else {
                *old(self)
            },
    {
        if 0 < fps && fps <= MAX_FPS {
            self.anim_scan.fps = fps as u8;
        }
    }

    /// Sets the connecting animation's speed, if it is from 1 to 60.
    pub fn set_connecting_fps(&mut self, fps: i32)
        requires
            old(self).wf(),
        ensures
            final(self).wf(),
            *final(self) == if 0 < fps <= MAX_FPS {
                PrivateData {
                    anim_connecting: IndicatorAnim { fps: fps as u8, ..old(self).anim_connecting },
                    ..*old(self)
                }
            } else {
                *old(self)
            },
    {
        if 0 < fps && fps <= MAX_FPS {
            self.anim_connecting.fps = fps as u8;
        }
    }

    /// Sets the scan animation's spinner glyphs, each shown before the
    /// session's name; an empty list is ignored.
    pub fn set_scan_indicator(&mut self, spinner: &Vec<String>)
        requires
            old(self).wf(),
        ensures
            final(self).wf(),
            spinner.len() == 0 ==> *final(self) == *old(self),
            spinner.len() > 0 ==> {
                &&& final(self).anim_scan.frames.len() == spinner.len()
                &&& forall|i: int|
                    0 <= i < spinner.len() ==> (#[trigger] final(self).anim_scan.frames@[i])@
                        == spinner@[i]@ + seq![' '] + old(self).display_name@
                &&& *final(self) == (PrivateData {
                    anim_scan: IndicatorAnim {
                        frames: final(self).anim_scan.frames,
                        ..old(self).anim_scan
                    },
                    ..*old(self)
                })
            },
    {
        if spinner.len() == 0 {
            return;
        }
        let mut frames: Vec<String> = Vec::new();
        let mut i: usize = 0;
        while i < spinner.len()
            invariant
                i <= spinner.len(),
                frames.len() == i,
                forall|j: int|
                    0 <= j < i ==> (#[trigger] frames@[j])@ == spinner@[j]@ + seq![' ']
                        + self.display_name@,
            decreases spinner.len() - i,
        {
            frames.push(IndicatorAnim::build_scan(self.display_name.as_str(), spinner[i].as_str()));
            i += 1;
        }
        self.anim_scan.frames = frames;
    }

    /// Sets the connecting animation's frames; an empty list is ignored.
    pub fn set_connecting_indicator(&mut self, frames: Vec<String>)
        requires
            old(self).wf(),
        ensures
            final(self).wf(),
            frames.len() == 0 ==> *final(self) == *old(self),
            frames.len() > 0 ==> *final(self) == (PrivateData {
                anim_connecting: IndicatorAnim { frames, ..old(self).anim_connecting },
                ..*old(self)
            }),
    {
        if frames.len() > 0 {
            self.anim_connecting.frames = frames;
        }
    }

    /// Sets the icons of open networks, from the first character of each of
    /// five settings (a placeholder for an empty one); a list of any other
    /// length is ignored.
    pub fn set_icons_open(&mut self, settings: &Vec<String>)
        requires
            old(self).wf(),
        ensures
            final(self).wf(),
            settings.len() != 5 ==> *final(self) == *old(self),
            settings.len() == 5 ==> {
                &&& forall|i: int|
                    0 <= i < 5 ==> final(self).icons.open@[i] == glyph_of(#[trigger] settings@[i]@)
                &&& *final(self) == (PrivateData {
                    icons: WiFiIcon { open: final(self).icons.open, ..old(self).icons },
                    ..*old(self)
                })
            },
    {
        if settings.len() == 5 {
            self.icons.open = glyphs(settings);
        }
    }

    /// Sets the icons of protected networks, as `set_icons_open` does.
    pub fn set_icons_psk(&mut self, settings: &Vec<String>)
        requires
            old(self).wf(),
        ensures
            final(self).wf(),
            settings.len() != 5 ==> *final(self) == *old(self),
            settings.len() == 5 ==> {
                &&& forall|i: int|
                    0 <= i < 5 ==> final(self).icons.psk@[i] == glyph_of(#[trigger] settings@[i]@)
                &&& *final(self) == (PrivateData {
                    icons: WiFiIcon { psk: final(self).icons.psk, ..old(self).icons },
                    ..*old(self)
                })
            },
    {
        if settings.len() == 5 {
            self.icons.psk = glyphs(settings);
        }
    }
}

} // verus!
