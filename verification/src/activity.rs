//! The Rich Presence activity model and its builders.

use vstd::prelude::*;
use crate::text::{has_prefix, starts_with};

verus! {

/// Discord activity type as defined by the Gateway API.
#[derive(Debug, Clone, Copy, PartialEq, Eq, Structural)]
pub enum ActivityType {
    Playing,
    Listening,
    Watching,
    Competing,
}

/// The Gateway code of an activity type.
pub open spec fn activity_code(t: ActivityType) -> u32 {
    match t {
        ActivityType::Playing => 0,
        ActivityType::Listening => 2,
        ActivityType::Watching => 3,
        ActivityType::Competing => 5,
    }
}

impl ActivityType {
    /// Returns the numeric code for this activity type.
    pub fn code(self) -> (c: u32)
        ensures
            c == activity_code(self),
    {
        match self {
            ActivityType::Playing => 0,
            ActivityType::Listening => 2,
            ActivityType::Watching => 3,
            ActivityType::Competing => 5,
        }
    }
}

impl Default for ActivityType {
    fn default() -> (t: Self)
        ensures
            t == ActivityType::Playing,
    {
        ActivityType::Playing
    }
}

/// Timestamps for an activity (start and/or end), in Unix epoch milliseconds.
#[derive(Debug, Clone, Copy)]
pub struct Timestamps {
    pub start: Option<i64>,
    pub end: Option<i64>,
}

/// The timestamps that `Timestamps::new` gives: neither start nor end.
pub open spec fn no_timestamps() -> Timestamps {
    Timestamps { start: None, end: None }
}

impl Default for Timestamps {
    fn default() -> (t: Self)
        ensures
            t == no_timestamps(),
    {
        Timestamps { start: None, end: None }
    }
}

impl Timestamps {
    pub fn new() -> (t: Self)
        ensures
            t == no_timestamps(),
    {
        Timestamps { start: None, end: None }
    }

    /// Set the start timestamp (Unix epoch milliseconds).
    pub fn set_start(self, ms: i64) -> (t: Self)
        ensures
            t == (Timestamps { start: Some(ms), ..self }),
    {
        let mut t = self;
        t.start = Some(ms);
        t
    }

    /// Set the end timestamp (Unix epoch milliseconds).
    pub fn set_end(self, ms: i64) -> (t: Self)
        ensures
            t == (Timestamps { end: Some(ms), ..self }),
    {
        let mut t = self;
        t.end = Some(ms);
        t
    }

    /// The start timestamp, 0 when none was set.
    pub fn start(&self) -> (ms: i64)
        ensures
            ms == match self.start {
                Some(v) => v,
                None => 0,
            },
    {
        match self.start {
            Some(v) => v,
            None => 0,
        }
    }

    /// The end timestamp, 0 when none was set.
    pub fn end(&self) -> (ms: i64)
        ensures
            ms == match self.end {
                Some(v) => v,
                None => 0,
            },
    {
        match self.end {
            Some(v) => v,
            None => 0,
        }
    }
}

/// The view of an optional string: its characters, or nothing.
pub open spec fn opt_view(s: Option<String>) -> Option<Seq<char>> {
    match s {
        Some(v) => Some(v@),
        None => None,
    }
}

/// The characters of an optional string, empty when there is none.
pub open spec fn or_empty(s: Option<String>) -> Seq<char> {
    match s {
        Some(v) => v@,
        None => Seq::empty(),
    }
}

/// A copy of an optional string.
pub fn clone_opt_string(s: &Option<String>) -> (r: Option<String>)
    ensures
        r == *s,
{
    match s {
        Some(v) => Some(v.clone()),
        None => None,
    }
}

/// The string held, or the empty string.
pub fn string_or_empty(s: &Option<String>) -> (r: String)
    ensures
        r@ == or_empty(*s),
{
    match s {
        Some(v) => v.clone(),
        None => String::new(),
    }
}

/// The prefix that marks an image key as an already-resolved media path.
pub open spec fn media_prefix() -> Seq<char> {
    "mp:"@
}

/// Whether an image key must go through the external assets API.
pub open spec fn is_external_key(key: Seq<char>) -> bool {
    !has_prefix(key, media_prefix())
}

/// Assets (images) for a Discord activity.
///
/// An image key that starts with `mp:` is an already-resolved media path;
/// any other key is an external URL that is resolved through Discord's
/// external assets API before it is sent.
#[derive(Debug)]
pub struct Assets {
    pub large_image: Option<String>,
    pub large_text: Option<String>,
    pub small_image: Option<String>,
    pub small_text: Option<String>,
    pub large_image_external: bool,
    pub small_image_external: bool,
}

/// The assets that `Assets::new` gives: no image, no text.
pub open spec fn no_assets() -> Assets {
    Assets {
        large_image: None,
        large_text: None,
        small_image: None,
        small_text: None,
        large_image_external: false,
        small_image_external: false,
    }
}

impl Clone for Assets {
    fn clone(&self) -> (a: Self)
        ensures
            a == *self,
    {
        Assets {
            large_image: clone_opt_string(&self.large_image),
            large_text: clone_opt_string(&self.large_text),
            small_image: clone_opt_string(&self.small_image),
            small_text: clone_opt_string(&self.small_text),
            large_image_external: self.large_image_external,
            small_image_external: self.small_image_external,
        }
    }
}

impl Default for Assets {
    fn default() -> (a: Self)
        ensures
            a == no_assets(),
    {
        Assets::new()
    }
}

impl Assets {
    pub fn new() -> (a: Self)
        ensures
            a == no_assets(),
    {
        Assets {
            large_image: None,
            large_text: None,
            small_image: None,
            small_text: None,
            large_image_external: false,
            small_image_external: false,
        }
    }

    /// Set the large image. A key that starts with `mp:` is an
    /// already-resolved path; any other key is resolved through Discord's
    /// external assets API.
    pub fn set_large_image(self, key: &str) -> (a: Self)
        ensures
            opt_view(a.large_image) == Some(key@),
            a.large_image_external == is_external_key(key@),
            a.large_text == self.large_text,
            a.small_image == self.small_image,
            a.small_text == self.small_text,
            a.small_image_external == self.small_image_external,
    {
        let external = !starts_with(key, "mp:");
        let mut a = self;
        a.large_image = Some(String::from_str(key));
        a.large_image_external = external;
        a
    }

    /// Set the text displayed on hover over the large image.
    pub fn set_large_text(self, text: &str) -> (a: Self)
        ensures
            opt_view(a.large_text) == Some(text@),
            a.large_image == self.large_image,
            a.small_image == self.small_image,
            a.small_text == self.small_text,
            a.large_image_external == self.large_image_external,
            a.small_image_external == self.small_image_external,
    {
        let mut a = self;
        a.large_text = Some(String::from_str(text));
        a
    }

    /// Set the small image. Same behavior as `set_large_image`.
    pub fn set_small_image(self, key: &str) -> (a: Self)
        ensures
            opt_view(a.small_image) == Some(key@),
            a.small_image_external == is_external_key(key@),
            a.large_image == self.large_image,
            a.large_text == self.large_text,
            a.small_text == self.small_text,
            a.large_image_external == self.large_image_external,
    {
        let external = !starts_with(key, "mp:");
        let mut a = self;
        a.small_image = Some(String::from_str(key));
        a.small_image_external = external;
        a
    }

    /// Set the text displayed on hover over the small image.
    pub fn set_small_text(self, text: &str) -> (a: Self)
        ensures
            opt_view(a.small_text) == Some(text@),
            a.large_image == self.large_image,
            a.large_text == self.large_text,
            a.small_image == self.small_image,
            a.large_image_external == self.large_image_external,
            a.small_image_external == self.small_image_external,
    {
        let mut a = self;
        a.small_text = Some(String::from_str(text));
        a
    }

    /// The large image key, empty when none was set.
    pub fn large_image(&self) -> (s: String)
        ensures
            s@ == or_empty(self.large_image),
    {
        string_or_empty(&self.large_image)
    }

    /// The large image text, empty when none was set.
    pub fn large_text(&self) -> (s: String)
        ensures
            s@ == or_empty(self.large_text),
    {
        string_or_empty(&self.large_text)
    }

    /// The small image key, empty when none was set.
    pub fn small_image(&self) -> (s: String)
        ensures
            s@ == or_empty(self.small_image),
    {
        string_or_empty(&self.small_image)
    }

    /// The small image text, empty when none was set.
    pub fn small_text(&self) -> (s: String)
        ensures
            s@ == or_empty(self.small_text),
    {
        string_or_empty(&self.small_text)
    }
}

/// A Discord Rich Presence activity, built using the builder pattern.
#[derive(Debug)]
pub struct Activity {
    pub name: String,
    pub activity_type: ActivityType,
    pub state: Option<String>,
    pub details: Option<String>,
    pub assets: Option<Assets>,
    pub timestamps: Option<Timestamps>,
}

/// `a` is the empty activity: what `Activity::new` gives, with nothing set.
pub open spec fn is_empty_activity(a: Activity) -> bool {
    &&& a.name@.len() == 0
    &&& a.activity_type == ActivityType::Playing
    &&& a.state is None
    &&& a.details is None
    &&& a.assets is None
    &&& a.timestamps is None
}

impl Clone for Activity {
    fn clone(&self) -> (a: Self)
        ensures
            a == *self,
    {
        Activity {
            name: self.name.clone(),
            activity_type: self.activity_type,
            state: clone_opt_string(&self.state),
            details: clone_opt_string(&self.details),
            assets: match &self.assets {
                Some(x) => Some(x.clone()),
                None => None,
            },
            timestamps: self.timestamps,
        }
    }
}

impl Default for Activity {
    fn default() -> (a: Self)
        ensures
            is_empty_activity(a),
    {
        Activity::new()
    }
}

impl Activity {
    pub fn new() -> (a: Self)
        ensures
            is_empty_activity(a),
    {
        Activity {
            name: String::new(),
            activity_type: ActivityType::Playing,
            state: None,
            details: None,
            assets: None,
            timestamps: None,
        }
    }

    /// Whether nothing was set on this activity. An empty activity clears
    /// the displayed presence when it is set.
    pub fn is_empty(&self) -> (b: bool)
        ensures
            b == is_empty_activity(*self),
    {
        self.name.as_str().is_empty() && self.activity_type == ActivityType::Playing
            && self.state.is_none() && self.details.is_none() && self.assets.is_none()
            && self.timestamps.is_none()
    }

    /// Set the activity name (top line on Discord).
    pub fn set_name(self, name: &str) -> (a: Self)
        ensures
            a.name@ == name@,
            a.activity_type == self.activity_type,
            a.state == self.state,
            a.details == self.details,
            a.assets == self.assets,
            a.timestamps == self.timestamps,
    {
        let mut a = self;
        a.name = String::from_str(name);
        a
    }

    /// Set the activity type.
    pub fn set_activity_type(self, t: ActivityType) -> (a: Self)
        ensures
            a == (Activity { activity_type: t, ..self }),
    {
        let mut a = self;
        a.activity_type = t;
        a
    }

    /// Set the state string (second line on Discord).
    pub fn set_state(self, state: &str) -> (a: Self)
        ensures
            opt_view(a.state) == Some(state@),
            a.name == self.name,
            a.activity_type == self.activity_type,
            a.details == self.details,
            a.assets == self.assets,
            a.timestamps == self.timestamps,
    {
        let mut a = self;
        a.state = Some(String::from_str(state));
        a
    }

    /// Set the details string (first line below the name).
    pub fn set_details(self, details: &str) -> (a: Self)
        ensures
            opt_view(a.details) == Some(details@),
            a.name == self.name,
            a.activity_type == self.activity_type,
            a.state == self.state,
            a.assets == self.assets,
            a.timestamps == self.timestamps,
    {
        let mut a = self;
        a.details = Some(String::from_str(details));
        a
    }

    /// Set the activity assets (images).
    pub fn set_assets(self, assets: Assets) -> (a: Self)
        ensures
            a == (Activity { assets: Some(assets), ..self }),
    {
        let mut a = self;
        a.assets = Some(assets);
        a
    }

    /// Set the activity timestamps.
    pub fn set_timestamps(self, ts: Timestamps) -> (a: Self)
        ensures
            a == (Activity { timestamps: Some(ts), ..self }),
    {
        let mut a = self;
        a.timestamps = Some(ts);
        a
    }

    /// The activity name.
    pub fn name(&self) -> (s: &str)
        ensures
            s@ == self.name@,
    {
        self.name.as_str()
    }

    /// The activity type.
    pub fn activity_type(&self) -> (t: ActivityType)
        ensures
            t == self.activity_type,
    {
        self.activity_type
    }

    /// The state string, empty when none was set.
    pub fn state(&self) -> (s: String)
        ensures
            s@ == or_empty(self.state),
    {
        string_or_empty(&self.state)
    }

    /// The details string, empty when none was set.
    pub fn details(&self) -> (s: String)
        ensures
            s@ == or_empty(self.details),
    {
        string_or_empty(&self.details)
    }

    /// The assets, or empty assets when none were set.
    pub fn assets(&self) -> (a: Assets)
        ensures
            a == match self.assets {
                Some(x) => x,
                None => no_assets(),
            },
    {
        match &self.assets {
            Some(x) => x.clone(),
            None => Assets::new(),
        }
    }

    /// The timestamps, or empty timestamps when none were set.
    pub fn timestamps(&self) -> (t: Timestamps)
        ensures
            t == match self.timestamps {
                Some(x) => x,
                None => no_timestamps(),
            },
    {
        match self.timestamps {
            Some(x) => x,
            None => Timestamps::new(),
        }
    }
}

} // verus!
