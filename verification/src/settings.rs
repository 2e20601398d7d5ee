//! The browser-underlay settings group: the ambience URL and the glass
//! opacity of the translucent terminal fill.
use vstd::prelude::*;

verus! {

/// Opacity (0-100) of the translucent terminal fill drawn over the browser
/// underlay. Values above [`BrowserGlassOpacity::MAX`] are clamped.
pub struct BrowserGlassOpacity {
    value: u8,
}

impl BrowserGlassOpacity {
    pub const MIN: u8 = 0;
    pub const MAX: u8 = 100;
    pub const DEFAULT: u8 = 55;

    pub closed spec fn spec_value(&self) -> u8 {
        self.value
    }

    /// The stored opacity never exceeds `MAX`.
    #[verifier::type_invariant]
    spec fn within_range(&self) -> bool {
        self.value <= Self::MAX
    }

    /// A fresh setting holding its default value.
    pub fn new() -> (s: Self)
        ensures
            s.spec_value() == Self::DEFAULT,
    {
        BrowserGlassOpacity { value: Self::DEFAULT }
    }

    /// The value a write of `new_value` stores: clamped to `MAX`.
    pub fn validate(&self, new_value: u8) -> (r: u8)
        ensures
            r == if new_value > Self::MAX { Self::MAX } else { new_value },
    {
        if new_value > Self::MAX {
            Self::MAX
        } else {
            new_value
        }
    }

    /// The stored opacity.
    pub fn value(&self) -> (v: u8)
        ensures
            v == self.spec_value(),
            v <= Self::MAX,
    {
        proof {
            use_type_invariant(self);
        }
        self.value
    }

    /// Stores `new_value`, clamped by [`BrowserGlassOpacity::validate`].
    pub fn set_value(&mut self, new_value: u8)
        ensures
            final(self).spec_value() == if new_value > Self::MAX { Self::MAX } else { new_value },
    {
        let v = self.validate(new_value);
        self.value = v;
    }
}

/// The URL loaded in the ambience underlay behind every window; empty
/// disables the ambience underlay.
pub struct BrowserAmbienceUrl {
    value: String,
}

impl BrowserAmbienceUrl {
    pub closed spec fn spec_value(&self) -> Seq<char> {
        self.value@
    }

    /// A fresh setting holding the empty URL.
    pub fn new() -> (s: Self)
        ensures
            s.spec_value() == Seq::<char>::empty(),
    {
        BrowserAmbienceUrl { value: String::new() }
    }

    pub fn value(&self) -> (v: &String)
        ensures
            v@ == self.spec_value(),
    {
        &self.value
    }

    pub fn set_value(&mut self, new_value: String)
        ensures
            final(self).spec_value() == new_value@,
    {
        self.value = new_value;
    }
}

/// The settings group: ambience URL and glass opacity.
pub struct BrowserUnderlaySettings {
    pub ambience_url: BrowserAmbienceUrl,
    pub glass_opacity: BrowserGlassOpacity,
}

impl BrowserUnderlaySettings {
    /// Every setting at its default: no ambience URL, glass opacity 55.
    pub fn new() -> (s: Self)
        ensures
            s.ambience_url.spec_value() == Seq::<char>::empty(),
            s.glass_opacity.spec_value() == BrowserGlassOpacity::DEFAULT,
    {
        BrowserUnderlaySettings {
            ambience_url: BrowserAmbienceUrl::new(),
            glass_opacity: BrowserGlassOpacity::new(),
        }
    }
}

} // verus!
