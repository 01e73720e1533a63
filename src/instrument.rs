use vstd::prelude::*;
use crate::clip::{ClipView, LoadError, SampleClip};

verus! {

/// Bite duration used until the user picks another, in milliseconds.
pub const DEFAULT_BITE_MS: u32 = 500;

/// Shortest bite the user may pick, in milliseconds.
pub const MIN_BITE_MS: u32 = 500;

/// Longest bite the user may pick, in milliseconds.
pub const MAX_BITE_MS: u32 = 5000;

/// `ms` brought into the allowed range of bite durations.
pub open spec fn clamped_bite(ms: int) -> int {
    if ms < MIN_BITE_MS {
        MIN_BITE_MS as int
    } else if ms > MAX_BITE_MS {
        MAX_BITE_MS as int
    } else {
        ms
    }
}

/// Brings a bite duration into the allowed range.
pub fn clamp_bite_ms(ms: u32) -> (r: u32)
    ensures
        r == clamped_bite(ms as int),
        MIN_BITE_MS <= r <= MAX_BITE_MS,
{
    if ms < MIN_BITE_MS {
        MIN_BITE_MS
    } else if ms > MAX_BITE_MS {
        MAX_BITE_MS
    } else {
        ms
    }
}

/// What to do when the bite duration changes: read the selected file again,
/// or make a new tone of that duration.
#[derive(Debug, Clone, PartialEq, Eq)]
pub enum Refresh {
    Reload(String),
    Tone(u32),
}

/// The instrument's state: the clip that every key plays, the file it came
/// from (none for the generated tone), and the bite duration.
pub struct Instrument {
    current: SampleClip,
    selected_path: Option<String>,
    bite_ms: u32,
}

impl Instrument {
    /// The clip that every key plays.
    pub closed spec fn clip(&self) -> ClipView {
        self.current@
    }

    /// The file the clip came from, if any.
    pub closed spec fn path(&self) -> Option<Seq<char>> {
        match self.selected_path {
            Some(p) => Some(p@),
            None => None,
        }
    }

    /// The bite duration in milliseconds.
    pub closed spec fn bite(&self) -> nat {
        self.bite_ms as nat
    }

    /// An instrument that plays the generated tone `tone`, at the default
    /// bite duration.
    pub fn new(tone: SampleClip) -> (r: Instrument)
        ensures
            r.clip() == tone@,
            r.path() is None,
            r.bite() == DEFAULT_BITE_MS,
    {
        Instrument { current: tone, selected_path: None, bite_ms: DEFAULT_BITE_MS }
    }

    /// The clip that every key plays.
    pub fn current(&self) -> (r: &SampleClip)
        ensures
            r@ == self.clip(),
    {
        &self.current
    }

    /// The file the clip came from, if any.
    pub fn selected_path(&self) -> (r: Option<&String>)
        ensures
            r matches Some(p) ==> self.path() == Some(p@),
            r is None <==> self.path() is None,
    {
        match &self.selected_path {
            Some(p) => Some(p),
            None => None,
        }
    }

    /// The bite duration in milliseconds.
    pub fn bite_ms(&self) -> (r: u32)
        ensures
            r == self.bite(),
    {
        self.bite_ms
    }

    /// Sets the bite duration, brought into the allowed range, and tells
    /// whether it changed.
    pub fn set_bite_ms(&mut self, ms: u32) -> (r: bool)
        ensures
            final(self).bite() == clamped_bite(ms as int),
            r == (final(self).bite() != old(self).bite()),
            final(self).clip() == old(self).clip(),
            final(self).path() == old(self).path(),
    {
        let ms = clamp_bite_ms(ms);
        let changed = ms != self.bite_ms;
        self.bite_ms = ms;
        changed
    }

    /// Takes the outcome of loading `path`: on success its clip replaces
    /// the current one and `path` becomes the selected file; on failure
    /// nothing changes and the error is handed back.
    pub fn apply_load(&mut self, path: String, loaded: Result<SampleClip, LoadError>) -> (r: Result<(), LoadError>)
        ensures
            final(self).bite() == old(self).bite(),
            match loaded {
                Ok(c) => r is Ok && final(self).clip() == c@ && final(self).path() == Some(path@),
                Err(e) => r == Err::<(), LoadError>(e) && final(self).clip() == old(self).clip()
                    && final(self).path() == old(self).path(),
            },
    {
        match loaded {
            Ok(c) => {
                self.current = c;
                self.selected_path = Some(path);
                Ok(())
            },
            Err(e) => Err(e),
        }
    }

    /// Replaces the clip with a freshly generated tone; no file stays
    /// selected.
    pub fn apply_tone(&mut self, tone: SampleClip) -> (r: ())
        ensures
            final(self).clip() == tone@,
            final(self).path() is None,
            final(self).bite() == old(self).bite(),
    {
        self.current = tone;
        self.selected_path = None;
    }

    /// What a change of bite duration calls for: the selected file read
    /// again at the new duration, or, with no file, a new tone.
    pub fn refresh(&self) -> (r: Refresh)
        ensures
            match self.path() {
                Some(p) => r matches Refresh::Reload(q) && q@ == p,
                None => r == Refresh::Tone(self.bite() as u32),
            },
    {
        match &self.selected_path {
            Some(p) => Refresh::Reload(p.clone()),
            None => Refresh::Tone(self.bite_ms),
        }
    }
}

} // verus!
