//! Command dispatch for networked audio/video receivers.
//!
//! Every device action is described by a plain value (`Command`,
//! `ListRequest`), carried to a blocking device client on a worker thread,
//! and its outcome settled into a `Reply` that keeps device errors and
//! worker failures apart. Fan-out over many devices keeps input order.
mod bridge;
mod command;
mod fanout;
mod paging;

pub use bridge::{settle, BridgeFailure, Reply};
pub use command::{
    net_usb_set_list_control, net_usb_set_playback, net_usb_set_repeat,
    net_usb_set_search_string, net_usb_set_shuffle, net_usb_toggle_repeat,
    net_usb_toggle_shuffle, recall_recent_item, set_3d_surround, set_balance, set_dialogue_level,
    set_dialogue_lift, set_direct, set_dts_dialogue_control, set_enhancer, set_extra_bass,
    set_input, set_mute, set_play_position, set_pure_direct, set_sleep, set_sound_program,
    set_subwoofer_volume, set_tone_bass, set_tone_treble, set_volume, set_volume_down,
    set_volume_up, set_ypao_volume, toggle_zone_power, Command, Level, ListControl, Playback,
    Repeat, Shuffle, Step, Switch,
};
pub use fanout::{first_failure, gather};
pub use paging::{
    consecutive_pages_disjoint, net_usb_get_list_info, window, ListRequest, LIST_LANGUAGE,
};
