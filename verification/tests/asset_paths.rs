//! Tests of the asset naming rules.

use script_vm::assets::{
    actor_anm_path, actor_model_path, camera_data_path, music_path, normalize_image_path,
    npc_info_path, scene_bsp_path, script_module_path, sound_path, video_path, ImageSetImage,
};

#[test]
fn script_and_actor_paths() {
    assert_eq!(script_module_path("script"), "/gamedata/script/script.csb");
    assert_eq!(script_module_path("Q01"), "/gamedata/script/Q01.csb");
    assert_eq!(actor_model_path("YT"), "/gamedata/PALActor/YT/YT.dff");
    assert_eq!(actor_anm_path("YT", "C01"), "/gamedata/PALActor/YT/C01.anm");
}

#[test]
fn scene_paths() {
    assert_eq!(scene_bsp_path("Q01", "q01a"), "/gamedata/PALWorld/Q01/q01a/q01a.bsp");
    assert_eq!(npc_info_path("Q01", "q01a"), "/gamedata/scenedata/Q01/q01a/npcInfo.npc");
    assert_eq!(camera_data_path("cam1", "Q01", "q01a"), "/gamedata/scenedata/Q01/q01a/cam1.cam");
}

#[test]
fn audio_paths() {
    assert_eq!(music_path("PI01"), "/gamedata/Music/PI01.smp");
    assert_eq!(sound_path("ding", "wav"), "/gamedata/PALSound/ding.wav");
}

#[test]
fn video_folder_is_chosen_by_folded_name() {
    // The three special movies live in the first folder, found
    // case-insensitively; everything else goes to the second.
    assert_eq!(video_path("1a.bik"), "/gamedata/VideoA/1a.bik");
    assert_eq!(video_path("1A.BIK"), "/gamedata/VideoA/1A.BIK");
    assert_eq!(video_path("End2.Bik"), "/gamedata/VideoA/End2.Bik");
    assert_eq!(video_path("PAL4A.bik"), "/gamedata/VideoA/PAL4A.bik");
    assert_eq!(video_path("intro.bik"), "/gamedata/videob/intro.bik");
}

#[test]
fn image_paths_gain_a_leading_separator() {
    assert_eq!(normalize_image_path("ui/portrait/p0.png"), "/ui/portrait/p0.png");
    assert_eq!(normalize_image_path("/ui/p0.png"), "/ui/p0.png");
    assert_eq!(normalize_image_path("\\ui\\p0.png"), "\\ui\\p0.png");
    assert_eq!(normalize_image_path(""), "/");
}

#[test]
fn image_set_image_carries_its_rectangle() {
    let img = ImageSetImage {
        name: String::from("hero"),
        x: 4,
        y: 8,
        width: 96,
        height: 128,
    };
    let copy = img.clone();
    assert_eq!(copy.name, "hero");
    assert_eq!((copy.x, copy.y, copy.width, copy.height), (4, 8, 96, 128));
}
