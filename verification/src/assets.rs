//! Where game assets live: the path composition and name rules the asset
//! loader decides by.
//!
//! Reading, decoding, and uploading the assets belong to the host; the
//! rules for naming them are plain string logic and are verified here.

use vstd::prelude::*;
use vstd::string::{StringExecFns, StrSliceExecFns};

verus! {

/// One image of a portrait image-set: its name and the pixel rectangle it
/// occupies in the set's image file. The decoded image itself stays with
/// the host's renderer.
#[derive(Clone)]
pub struct ImageSetImage {
    pub name: String,
    pub x: u32,
    pub y: u32,
    pub width: u32,
    pub height: u32,
}

/// What `str::to_lowercase` returns; the result depends on the characters
/// alone.
pub uninterp spec fn lower_of(s: Seq<char>) -> Seq<char>;

/// Relies on str::to_lowercase: folds a name to lower case for
/// case-insensitive file lookups.
#[verifier::external_body]
fn lowercase(s: &str) -> (r: String)
    ensures
        r@ == lower_of(s@),
{
    s.to_lowercase()
}

/// The path of a scene's compiled script module.
pub fn script_module_path(scene: &str) -> (r: String)
    ensures
        r@ == "/gamedata/script/"@ + scene@ + ".csb"@,
{
    let mut r = String::from_str("/gamedata/script/");
    r.append(scene);
    r.append(".csb");
    r
}

/// The path of an actor's model file.
pub fn actor_model_path(actor_name: &str) -> (r: String)
    ensures
        r@ == "/gamedata/PALActor/"@ + actor_name@ + "/"@ + actor_name@ + ".dff"@,
{
    let mut r = String::from_str("/gamedata/PALActor/");
    r.append(actor_name);
    r.append("/");
    r.append(actor_name);
    r.append(".dff");
    r
}

/// The path of an actor's animation file.
pub fn actor_anm_path(actor_name: &str, act_name: &str) -> (r: String)
    ensures
        r@ == "/gamedata/PALActor/"@ + actor_name@ + "/"@ + act_name@ + ".anm"@,
{
    let mut r = String::from_str("/gamedata/PALActor/");
    r.append(actor_name);
    r.append("/");
    r.append(act_name);
    r.append(".anm");
    r
}

/// The path of a scene block's world model.
pub fn scene_bsp_path(scene_name: &str, block_name: &str) -> (r: String)
    ensures
        r@ == "/gamedata/PALWorld/"@ + scene_name@ + "/"@ + block_name@ + "/"@ + block_name@
            + ".bsp"@,
{
    let mut r = String::from_str("/gamedata/PALWorld/");
    r.append(scene_name);
    r.append("/");
    r.append(block_name);
    r.append("/");
    r.append(block_name);
    r.append(".bsp");
    r
}

/// The path of a scene block's non-player-character table.
pub fn npc_info_path(scene_name: &str, block_name: &str) -> (r: String)
    ensures
        r@ == "/gamedata/scenedata/"@ + scene_name@ + "/"@ + block_name@ + "/npcInfo.npc"@,
{
    let mut r = String::from_str("/gamedata/scenedata/");
    r.append(scene_name);
    r.append("/");
    r.append(block_name);
    r.append("/npcInfo.npc");
    r
}

/// The path of a scene block's camera data file.
pub fn camera_data_path(camera_data_name: &str, scene_name: &str, block_name: &str) -> (r: String)
    ensures
        r@ == "/gamedata/scenedata/"@ + scene_name@ + "/"@ + block_name@ + "/"@
            + camera_data_name@ + ".cam"@,
{
    let mut r = String::from_str("/gamedata/scenedata/");
    r.append(scene_name);
    r.append("/");
    r.append(block_name);
    r.append("/");
    r.append(camera_data_name);
    r.append(".cam");
    r
}

/// The path of a music file.
pub fn music_path(music_name: &str) -> (r: String)
    ensures
        r@ == "/gamedata/Music/"@ + music_name@ + ".smp"@,
{
    let mut r = String::from_str("/gamedata/Music/");
    r.append(music_name);
    r.append(".smp");
    r
}

/// The path of a sound file.
pub fn sound_path(sound_name: &str, ext: &str) -> (r: String)
    ensures
        r@ == "/gamedata/PALSound/"@ + sound_name@ + "."@ + ext@,
{
    let mut r = String::from_str("/gamedata/PALSound/");
    r.append(sound_name);
    r.append(".");
    r.append(ext);
    r
}

/// Which folder a movie lives in: a handful of movies sit in the first
/// video folder, everything else in the second; the lookup is
/// case-insensitive.
pub open spec fn spec_video_folder(lower_name: Seq<char>) -> Seq<char> {
    if lower_name == "1a.bik"@ || lower_name == "end2.bik"@ || lower_name == "pal4a.bik"@ {
        "VideoA"@
    } else {
        "videob"@
    }
}

/// The path of a movie file, folder chosen by the folded name.
pub fn video_path(video_name: &str) -> (r: String)
    ensures
        r@ == "/gamedata/"@ + spec_video_folder(lower_of(video_name@)) + "/"@ + video_name@,
{
    let low = lowercase(video_name);
    let folder: &str = if low == "1a.bik".to_owned() {
        "VideoA"
    } else if low == "end2.bik".to_owned() {
        "VideoA"
    } else if low == "pal4a.bik".to_owned() {
        "VideoA"
    } else {
        "videob"
    };
    let mut r = String::from_str("/gamedata/");
    r.append(folder);
    r.append("/");
    r.append(video_name);
    r
}

/// An image-set's image file path, given an absolute or relative form:
/// a path that does not start with a separator gains a leading slash.
pub fn normalize_image_path(path: &str) -> (r: String)
    ensures
        r@ == if path@.len() > 0 && (path@[0] == '/' || path@[0] == '\\') {
            path@
        } else {
            "/"@ + path@
        },
{
    let n = path.unicode_len();
    if n > 0 {
        let c = path.get_char(0);
        if c == '/' || c == '\\' {
            return path.to_owned();
        }
    }
    let mut r = String::from_str("/");
    r.append(path);
    r
}

} // verus!
