use pstream_frontend::buttons::{
    circular_button_classes, circular_button_specs, more_info_background, more_info_pill_classes, mute_replay_mode,
    pill_radius, pill_size_classes, play_label, play_pill_classes, MuteReplayMode,
};

#[test]
fn round_button_geometry() {
    assert_eq!(circular_button_specs("xs"), ("w-7 h-7", "text-xs", 12));
    assert_eq!(circular_button_specs("sm"), ("w-7 h-7", "text-xs", 12));
    assert_eq!(circular_button_specs("lg"), ("w-11 h-11 md:w-12 md:h-12", "text-xl md:text-2xl", 22));
    assert_eq!(circular_button_specs("md"), ("w-[39px] h-[39px]", "text-[17px]", 17));
    assert_eq!(circular_button_specs("huge"), ("w-[39px] h-[39px]", "text-[17px]", 17));
}

#[test]
fn round_button_classes() {
    let expected = format!(
        "rounded-full border border-white/40 bg-zinc-800/80 hover:bg-white/15 hover:border-white text-white flex items-center justify-center transition-all duration-150 active:scale-95 cursor-pointer shadow-md select-none shrink-0 {} {}",
        "w-7 h-7", "ml-2"
    );
    assert_eq!(circular_button_classes("w-7 h-7", "ml-2"), expected);
}

#[test]
fn pill_geometry() {
    assert_eq!(pill_size_classes("sm"), ("px-3.5 py-1", "text-xs", "text-sm"));
    assert_eq!(pill_size_classes("lg"), ("px-6 sm:px-7 py-2 sm:py-2.5", "text-[15px] md:text-[17px]", "text-xl sm:text-[22px]"));
    assert_eq!(pill_size_classes("md"), ("px-4 sm:px-5 py-1.5 sm:py-2", "text-[13px] sm:text-sm", "text-base sm:text-lg"));
    assert_eq!(pill_radius("pill", "lg"), "rounded-full");
    assert_eq!(pill_radius("rounded", "sm"), "rounded-[4px]");
    assert_eq!(pill_radius("rect", "lg"), "rounded-[8px]");
    assert_eq!(pill_radius("rounded", "md"), "rounded-[6px]");
    assert_eq!(more_info_background("rect"), "bg-white/20 hover:bg-white/30 backdrop-blur-md");
    assert_eq!(more_info_background("pill"), "bg-[#6d6d6e]/70 hover:bg-[#6d6d6e]/40 backdrop-blur-sm");
}

#[test]
fn pill_class_lists() {
    let link = format!(
        "bg-white text-black font-bold flex items-center justify-center gap-2.5 hover:bg-white/80 active:scale-95 transition-all shadow-md cursor-pointer select-none {} {} {} {} {}",
        "px-6 sm:px-7 py-2 sm:py-2.5", "text-[15px] md:text-[17px]", "rounded-full", "", "no-underline"
    );
    assert_eq!(play_pill_classes("lg", "pill", "", true), link);
    let button = format!(
        "bg-white text-black font-bold flex items-center justify-center gap-2.5 hover:bg-white/80 active:scale-95 transition-all shadow-md cursor-pointer select-none {} {} {} {} {}",
        "px-3.5 py-1", "text-xs", "rounded-[4px]", "w-full", ""
    );
    assert_eq!(play_pill_classes("sm", "rounded", "w-full", false), button);
    let info = format!(
        "{} text-white font-bold flex items-center justify-center gap-2.5 active:scale-95 transition-all shadow-md cursor-pointer select-none {} {} {} {} {}",
        "bg-[#6d6d6e]/70 hover:bg-[#6d6d6e]/40 backdrop-blur-sm", "px-4 sm:px-5 py-1.5 sm:py-2", "text-[13px] sm:text-sm", "rounded-full", "", ""
    );
    assert_eq!(more_info_pill_classes("md", "pill", ""), info);
}

#[test]
fn labels_of_play_and_mute_buttons() {
    assert_eq!(play_label(true), "Resume");
    assert_eq!(play_label(false), "Play");
    assert_eq!(mute_replay_mode(true, true), MuteReplayMode::Replay);
    assert_eq!(mute_replay_mode(false, true), MuteReplayMode::Unmute);
    assert_eq!(mute_replay_mode(false, false), MuteReplayMode::Mute);
    assert_eq!(MuteReplayMode::Replay.title(), "Replay trailer");
    assert_eq!(MuteReplayMode::Unmute.title(), "Unmute trailer");
    assert_eq!(MuteReplayMode::Mute.title(), "Mute trailer");
    assert_eq!(MuteReplayMode::Unmute.icon(), "ph-speaker-slash");
}
