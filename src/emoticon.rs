//! Emoticons of the catalog.
use vstd::prelude::*;

use crate::error::Error;
use crate::json::{expect_object, field, field_is, opt_field, opt_field_is, FromJson, Json};

verus! {

/// An emoticon: its shortcut, size and, for sounds, the audio asset.
#[derive(Debug, Clone, Hash, PartialEq, Eq)]
pub struct Emoticon {
    pub width: u64,
    pub audio_path: Option<String>,
    pub id: u64,
    pub shortcut: String,
    pub height: String,
}

impl FromJson for Emoticon {
    open spec fn decodes_to(j: Json, v: Emoticon) -> bool {
        &&& j is Object
        &&& field_is(j, "width"@, v.width)
        &&& opt_field_is(j, "audio_path"@, v.audio_path)
        &&& field_is(j, "id"@, v.id)
        &&& field_is(j, "shortcut"@, v.shortcut)
        &&& field_is(j, "height"@, v.height)
    }

    fn from_json(j: &Json) -> (r: Result<Emoticon, Error>) {
        expect_object(j, "emoticon")?;
        let width = field(j, "width")?;
        let audio_path = opt_field(j, "audio_path")?;
        let id = field(j, "id")?;
        let shortcut = field(j, "shortcut")?;
        let height = field(j, "height")?;
        Ok(Emoticon { width, audio_path, id, shortcut, height })
    }
}

} // verus!
