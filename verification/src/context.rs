//! The standard native-function table of the embedding game: the handful of
//! implemented handlers and the large deliberate stub surface.

use vstd::prelude::*;
use crate::module::CompiledModule;
use crate::registry::{NativeFn, NativeRegistry, spec_lookup};
use crate::vm::{ScriptVm, Status};

verus! {

/// Registers the deliberately unimplemented native surface: every listed
/// name shares the stub handler, and names that are already bound keep
/// their binding.
fn register_stubs(reg: &mut NativeRegistry)
    ensures
        forall|n: Seq<char>|
            spec_lookup(old(reg)@, n) is Some ==> #[trigger] spec_lookup(final(reg)@, n)
                == spec_lookup(old(reg)@, n),
{
    let ghost reg0 = reg@;
    let names: Vec<&str> = vec![
        "giCameraCtrlDist", "giCameraCtrlYPRD", "giCameraGetDist", "giCameraGetYaw",
        "giCameraGetPitch", "giCameraGetRoll", "giArenaReady", "giArenaReadyRestore",
        "giArenaHint", "giArenaComeFromHere", "giPlayerSetLeader", "giPlayerSetVisible",
        "giPlayerAttachCollision", "giPlayerDetachCollision", "giPlayerLock", "giPlayerUnLock",
        "giSetNpcVisible", "giNpcCreate", "giNpcDelete", "giSystemExchange",
        "giMonsterStopPursuit", "giCameraSetMode", "giGetGoodsOpenCondition", "giNpcPauseBeh",
        "giNpcResumeBeh", "giOpenWeather", "giCloseWeather", "giSetMinimapExpmode",
        "giGetRandnum", "giSetTempGameState", "giFlushTailYAngle", "giAddCombatMonster",
        "giConfigCombatParam", "giConfigCombatBgm", "giConfigCombatCamera", "giStartCombat",
        "giSetObjectVisible", "giAddProperty", "giDelProperty", "giPlayerInTeam",
        "giPlayerOutTeam", "giGOMTouch", "giCameraSetCollide", "giCameraSeekToPlayer",
        "giCameraAutoSeek", "giPlayerSetAttr", "giPlayerGetLeader", "giSetPlayerLevel",
        "giAddPlayerEquip", "giAddEquipment", "giPlayerCurrentSetVisible", "giSetFullHP",
        "giSetFullMP", "giGetPlayerLevel", "giGotoLogo", "giPlayerUnHoldAct", "giNpcUnHoldAct",
        "giCameraSetDistOptEnable", "giMonsterSetHide", "giGameObjectSetResearch",
        "giSetPortrait", "giBGMConfigSetMusic", "giBGMConfigIsInArea", "giScriptMusicMute",
        "giScriptMusicPlay", "giScriptMusicStop", "giArenaMusicStop", "giWorldMapSetState",
        "giGetPuzzleGameResult", "giAlwaysJump", "gi2DSoundPlay", "gi2DSoundStop",
        "gi2DSoundStopID", "giCGEffPlay", "giCGEffStop", "giEffectPlay",
        "giEffectPlayWithPlayer", "giEffectPlayWithCurrentPlayer", "giEffectPlayWithNPC",
        "giEffectPlayWithOBJ", "giEffectStopWithOBJ", "giShowHint", "giPlayerAddSkill",
        "giMonsterSetVisible", "giPlayerRandomPosition", "giPlayerCurrentRandomPosition",
        "giEventVolumeVisible", "giAllPlayerGarb2", "giPlayerGarb2", "giAllPlayerGarb1",
        "giPlayerGarb1", "giGetVisibleObject", "giGetVisibleMonster", "giCheckPackProperty",
        "giGrantSystemUi", "giOpenSystemUi", "giGrantSmithSystem", "giGrantMagicSystem",
        "giCheckMagicMastered", "giSelectDialogAddItem", "giSelectDialogGetLastSelect",
        "giGOBAttachToPlayer", "giGOBAttachToCurrentPlayer", "giGOBDetachFromPlayer",
        "giGOBDetachFromCurrentPlayer", "giEffectAttachToPlayer",
        "giEffectAttachToCurrentPlayer", "giEffectDetachFromPlayer",
        "giEffectDetachFromCurrentPlayer", "giEffectAttachToNpc", "giEffectDetachFromNpc",
        "giGOBAttachToNpc", "giGOBDetachFromNPC", "giGOBSetPosition",
        "giScriptClearCTXButCurrent", "giAddMoney", "giPayMoney", "giHideGASkillObject",
        "giShowSignpost", "giPlayerSetEmotion", "giPlayerResetEmotion",
        "giPlayerCurrentSetEmotion", "giPlayerCurrentResetEmotion", "giLINGSHALegsInjured",
        "giLINGSHALegsHealing", "giNpcSetEmotion", "giNpcResetEmotion", "giGetPropertyNumb",
        "giPlayerCurrentGetPosX", "giPlayerCurrentGetPosY", "giPlayerCurrentGetPosZ",
        "giArenaGetName", "giArenaGetArea", "giArenaSkillEnable", "giShowInnDialog",
        "giGetInnDialogResult", "giPlayerTakeARest", "giIsNightTime", "giPlayerSetPosRot1",
        "giPlayerSetPosRot2", "giStartUiTimer", "giPlayerForbidenSkill", "giGetMoney",
        "giSelectDialogSetDefaultSelect", "giShowQuestDialog", "giGetQuestDialogResult",
        "giResetPlayerToJumpStart", "giGOBReset", "giCheckEquipInInventory",
        "giRemoveEquipment", "giAddPrescription", "giEnableShadow", "giAddRoundTimes",
        "giTimeScript", "giTimeScriptTerminate", "giConfigCombatGroundCamera",
        "giAddPlayerFavor", "giGetPalTestResult", "giSetMinimapLevel", "giPetShow",
        "giNpcAttachEffect", "giNpcDetachEffect", "giMstAttachEffect", "giMstDetachEffect",
        "giPlayerHookEffect", "giPlayerDetachEffect", "giCommonDialogGetLastSelect",
        "giConfigCombatVipMonster", "giEnableSTS", "giClearUiTimer", "giPauseUiTimer",
        "giResumeUiTimer", "giSetFullRage", "giUiTimerGetSaveData", "giUnknown", "giTalk",
        "giRandTalkPush", "giRandTalk", "giRandTalkRelease", "giTalkWait", "giPlayerDoAction",
        "giPlayerEndAction", "giPlayerCurrentDoAction", "giPlayerCurrentEndAction",
        "giPlayerSetPos", "giPlayerCurrentSetPos", "giPlayerSetRot", "giPlayerSetAng",
        "giPlayerCurrentSetAng", "giPlayerFaceToPlayer", "giPlayerSetDir", "giPlayerFaceToNpc",
        "giPlayerWalkTo", "giPlayerRunTo", "giPlayerCurrentWalkTo", "giPlayerBackTo",
        "giPlayerBlendOut", "giPlayerBlendIn", "giPlayerFaceToCurrentPlayer",
        "giCurrentPlayerFaceToNpc", "giPlayerDoActionRepeat", "giPlayerEndActionRepeat",
        "giPlayerEndMove", "giCurrentPlayerEndMove", "giNpcWalkTo", "giNpcRunTo",
        "giNpcBackTo", "giNpcDoAction", "giNpcEndAction", "giNpcSetPos", "giNpcSetRot",
        "giNpcSetDir", "giNpcFaceToNpc", "giNpcFaceToPlayer", "giNpcBlendOut", "giNpcBlendIn",
        "giNpcFaceToCurrentPlayer", "giNpcResetDir", "giNpcDoActionRepeat",
        "giNpcEndActionRepeat", "giNpcEndMove", "giNpcSetAng", "giCameraPrepare",
        "giCameraRunSingle", "giCameraRunCircle", "giCameraWait", "giFlashInBlack",
        "giFlashOutWhite", "giFlashInWhite", "giFlashOutRed", "giFlashInRed",
        "giObjectDoAction", "giStartTradeSystem", "giStartPuzzleGame", "giStartJigsawGame",
        "giOBJBlendOut", "giOBJBlendIn", "giMSTBlendOut", "giMSTBlendIn", "giShowCommonDialog",
        "giShowSelectDialog", "giGOBMovment", "giShowTutorial", "giShowWorldMap", "giGOBScale",
        "giPlayerCurrentFaceToGOB", "giPlayerCurrentMovement", "giShowPoetry", "giNPCFlyTo",
        "giGotoLogoWait", "giShowCommonDialogInSelectMode", "giPlayMovieFinal"
    ];
    let mut i: usize = 0;
    while i < names.len()
        invariant
            forall|n: Seq<char>|
                spec_lookup(reg0, n) is Some ==> #[trigger] spec_lookup(reg@, n) == spec_lookup(
                    reg0,
                    n,
                ),
        decreases names@.len() - i,
    {
        let _ = reg.register(names[i].to_owned(), NativeFn::NotImplemented);
        i += 1;
    }
}

/// The complete registry the embedding application builds once at startup:
/// every native symbol the compiled content may reference, with the
/// unimplemented part of the surface sharing the stub handler.
#[verifier::rlimit(100)]
pub fn create_context() -> (r: NativeRegistry)
    ensures
        spec_lookup(r@, "giIMMBegin"@) == Some(NativeFn::Noop),
        spec_lookup(r@, "giIMMEnd"@) == Some(NativeFn::Noop),
        spec_lookup(r@, "giNewGame"@) == Some(NativeFn::Noop),
        spec_lookup(r@, "giArenaLoad"@) == Some(NativeFn::ArenaLoad),
        spec_lookup(r@, "giOpenMovieFlag"@) == Some(NativeFn::OpenMovieFlag),
        spec_lookup(r@, "giAddQuestComplatePercentage"@) == Some(NativeFn::AddQuestCompletePercentage),
        spec_lookup(r@, "giScriptMusicPause"@) == Some(NativeFn::Noop),
        spec_lookup(r@, "giScriptMusicResume"@) == Some(NativeFn::Noop),
        spec_lookup(r@, "giWait"@) == Some(NativeFn::Wait),
        spec_lookup(r@, "giFlashOutBlack"@) == Some(NativeFn::FlashOutBlack),
        spec_lookup(r@, "giPlayMovie"@) == Some(NativeFn::PlayMovie),
        spec_lookup(r@, "giCameraCtrlYPR"@) == Some(NativeFn::NotImplemented),
{
    let mut reg = NativeRegistry::new();
    proof {
        reveal_strlit("giIMMBegin");
        reveal_strlit("giIMMEnd");
        reveal_strlit("giNewGame");
        reveal_strlit("giArenaLoad");
        reveal_strlit("giOpenMovieFlag");
        reveal_strlit("giAddQuestComplatePercentage");
        reveal_strlit("giScriptMusicPause");
        reveal_strlit("giScriptMusicResume");
        reveal_strlit("giWait");
        reveal_strlit("giFlashOutBlack");
        reveal_strlit("giPlayMovie");
        reveal_strlit("giCameraCtrlYPR");
        assert("giIMMBegin"@.len() == 10);
        assert("giIMMEnd"@.len() == 8);
        assert("giNewGame"@.len() == 9);
        assert("giArenaLoad"@.len() == 11);
        assert("giOpenMovieFlag"@.len() == 15);
        assert("giAddQuestComplatePercentage"@.len() == 28);
        assert("giScriptMusicPause"@.len() == 18);
        assert("giScriptMusicResume"@.len() == 19);
        assert("giWait"@.len() == 6);
        assert("giFlashOutBlack"@.len() == 15);
        assert("giPlayMovie"@.len() == 11);
        assert("giCameraCtrlYPR"@.len() == 15);
        assert("giArenaLoad"@[2] == 'A');
        assert("giPlayMovie"@[2] == 'P');
        assert("giArenaLoad"@ != "giPlayMovie"@);
        assert("giOpenMovieFlag"@[2] == 'O');
        assert("giFlashOutBlack"@[2] == 'F');
        assert("giCameraCtrlYPR"@[2] == 'C');
        assert("giOpenMovieFlag"@ != "giFlashOutBlack"@);
        assert("giOpenMovieFlag"@ != "giCameraCtrlYPR"@);
        assert("giFlashOutBlack"@ != "giCameraCtrlYPR"@);
    }
    let _ = reg.register("giIMMBegin".to_owned(), NativeFn::Noop);
    proof {
        assert(spec_lookup(reg@, "giIMMBegin"@) == Some(NativeFn::Noop));
    }
    let _ = reg.register("giIMMEnd".to_owned(), NativeFn::Noop);
    proof {
        assert(spec_lookup(reg@, "giIMMEnd"@) == Some(NativeFn::Noop));
    }
    let _ = reg.register("giNewGame".to_owned(), NativeFn::Noop);
    proof {
        assert(spec_lookup(reg@, "giNewGame"@) == Some(NativeFn::Noop));
    }
    let _ = reg.register("giArenaLoad".to_owned(), NativeFn::ArenaLoad);
    proof {
        assert(spec_lookup(reg@, "giArenaLoad"@) == Some(NativeFn::ArenaLoad));
    }
    let _ = reg.register("giOpenMovieFlag".to_owned(), NativeFn::OpenMovieFlag);
    proof {
        assert(spec_lookup(reg@, "giOpenMovieFlag"@) == Some(NativeFn::OpenMovieFlag));
    }
    let _ = reg.register("giAddQuestComplatePercentage".to_owned(), NativeFn::AddQuestCompletePercentage);
    proof {
        assert(spec_lookup(reg@, "giAddQuestComplatePercentage"@) == Some(NativeFn::AddQuestCompletePercentage));
    }
    let _ = reg.register("giScriptMusicPause".to_owned(), NativeFn::Noop);
    proof {
        assert(spec_lookup(reg@, "giScriptMusicPause"@) == Some(NativeFn::Noop));
    }
    let _ = reg.register("giScriptMusicResume".to_owned(), NativeFn::Noop);
    proof {
        assert(spec_lookup(reg@, "giScriptMusicResume"@) == Some(NativeFn::Noop));
    }
    let _ = reg.register("giWait".to_owned(), NativeFn::Wait);
    proof {
        assert(spec_lookup(reg@, "giWait"@) == Some(NativeFn::Wait));
    }
    let _ = reg.register("giFlashOutBlack".to_owned(), NativeFn::FlashOutBlack);
    proof {
        assert(spec_lookup(reg@, "giFlashOutBlack"@) == Some(NativeFn::FlashOutBlack));
    }
    let _ = reg.register("giPlayMovie".to_owned(), NativeFn::PlayMovie);
    proof {
        assert(spec_lookup(reg@, "giPlayMovie"@) == Some(NativeFn::PlayMovie));
    }
    let _ = reg.register("giCameraCtrlYPR".to_owned(), NativeFn::NotImplemented);
    proof {
        assert(spec_lookup(reg@, "giCameraCtrlYPR"@) == Some(NativeFn::NotImplemented));
    }
    register_stubs(&mut reg);
    reg
}

/// A machine over the standard registry, executing `module` from its first
/// instruction.
pub fn create_script_vm<C>(module: CompiledModule, context: C) -> (vm: ScriptVm<C>)
    ensures
        vm@.heap == module@.consts,
        vm@.frames == seq![crate::vm::Frame { module: 0usize, pc: 0usize }],
        vm@.status == Status::Ready,
        vm@.modules == seq![module@],
        crate::vm::wf(vm@),
        spec_lookup(vm@.registry, "giWait"@) == Some(NativeFn::Wait),
        spec_lookup(vm@.registry, "giArenaLoad"@) == Some(NativeFn::ArenaLoad),
{
    ScriptVm::new(create_context(), module, 0, context)
}

} // verus!
