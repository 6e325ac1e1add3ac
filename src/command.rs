use vstd::prelude::*;

verus! {

/// A zone setting that takes a signed integer level.
#[derive(Clone, Copy, Debug, PartialEq, Eq, Structural)]
pub enum Level {
    Volume,
    Balance,
    SubwooferVolume,
    DialogueLift,
    DialogueLevel,
    DtsDialogueControl,
    ToneBass,
    ToneTreble,
}

/// A zone feature that is switched on or off.
#[derive(Clone, Copy, Debug, PartialEq, Eq, Structural)]
pub enum Switch {
    Mute,
    Enhancer,
    ExtraBass,
    PureDirect,
    Direct,
    Surround3d,
}

/// A zone action that takes no argument.
#[derive(Clone, Copy, Debug, PartialEq, Eq, Structural)]
pub enum Step {
    TogglePower,
    VolumeUp,
    VolumeDown,
}

/// Transport intent for the network/USB player.
#[derive(Clone, Copy, Debug, PartialEq, Eq, Structural)]
pub enum Playback {
    Play,
    Stop,
    Pause,
    PlayPause,
    Previous,
    Next,
    FastReverseStart,
    FastReverseEnd,
    FastForwardStart,
    FastForwardEnd,
}

/// Repeat mode of the network/USB player.
#[derive(Clone, Copy, Debug, PartialEq, Eq, Structural)]
pub enum Repeat {
    Off,
    One,
    All,
}

/// Shuffle mode of the network/USB player.
#[derive(Clone, Copy, Debug, PartialEq, Eq, Structural)]
pub enum Shuffle {
    Off,
    On,
    Songs,
    Albums,
}

/// Navigation intent inside a network/USB list.
#[derive(Clone, Copy, Debug, PartialEq, Eq, Structural)]
pub enum ListControl {
    Select,
    Play,
    Return,
}

/// One write to one device: the whole table of state-changing actions.
/// Each value maps onto exactly one blocking client call, whose arguments
/// are the fields, unchanged.
#[derive(Clone, Debug)]
#[allow(inconsistent_fields)]
pub enum Command {
    ZoneStep { ip: String, zone: String, step: Step },
    ZoneLevel { ip: String, zone: String, level: Level, value: i32 },
    ZoneSwitch { ip: String, zone: String, switch: Switch, enabled: bool },
    SoundProgram { ip: String, zone: String, program: String },
    Input { ip: String, zone: String, input: String },
    Sleep { ip: String, zone: String, minutes: u32 },
    YpaoVolume { ip: String, enabled: bool },
    SetPlayback { ip: String, playback: Playback },
    SetRepeat { ip: String, mode: Repeat },
    SetShuffle { ip: String, mode: Shuffle },
    ToggleRepeat { ip: String },
    ToggleShuffle { ip: String },
    ListCommand {
        ip: String,
        list_id: String,
        control: ListControl,
        index: Option<u32>,
        zone: Option<String>,
    },
    SearchString { ip: String, list_id: String, text: String, index: Option<u32> },
    PlayPosition { ip: String, position: u32 },
    RecallRecent { ip: String, zone: String, item: u32 },
}

impl Command {
    /// The address of the one device that the command changes.
    pub open spec fn target(&self) -> String {
        match self {
            Command::ZoneStep { ip, .. } => *ip,
            Command::ZoneLevel { ip, .. } => *ip,
            Command::ZoneSwitch { ip, .. } => *ip,
            Command::SoundProgram { ip, .. } => *ip,
            Command::Input { ip, .. } => *ip,
            Command::Sleep { ip, .. } => *ip,
            Command::YpaoVolume { ip, .. } => *ip,
            Command::SetPlayback { ip, .. } => *ip,
            Command::SetRepeat { ip, .. } => *ip,
            Command::SetShuffle { ip, .. } => *ip,
            Command::ToggleRepeat { ip } => *ip,
            Command::ToggleShuffle { ip } => *ip,
            Command::ListCommand { ip, .. } => *ip,
            Command::SearchString { ip, .. } => *ip,
            Command::PlayPosition { ip, .. } => *ip,
            Command::RecallRecent { ip, .. } => *ip,
        }
    }

    /// The address of the device that the command changes.
    pub fn address(&self) -> (r: &String)
        ensures
            *r == self.target(),
    {
        match self {
            Command::ZoneStep { ip, .. } => ip,
            Command::ZoneLevel { ip, .. } => ip,
            Command::ZoneSwitch { ip, .. } => ip,
            Command::SoundProgram { ip, .. } => ip,
            Command::Input { ip, .. } => ip,
            Command::Sleep { ip, .. } => ip,
            Command::YpaoVolume { ip, .. } => ip,
            Command::SetPlayback { ip, .. } => ip,
            Command::SetRepeat { ip, .. } => ip,
            Command::SetShuffle { ip, .. } => ip,
            Command::ToggleRepeat { ip } => ip,
            Command::ToggleShuffle { ip } => ip,
            Command::ListCommand { ip, .. } => ip,
            Command::SearchString { ip, .. } => ip,
            Command::PlayPosition { ip, .. } => ip,
            Command::RecallRecent { ip, .. } => ip,
        }
    }
}

/// Switches the zone's power on or off, whichever it is not.
pub fn toggle_zone_power(ip: String, zone: String) -> (c: Command)
    ensures
        c == (Command::ZoneStep { ip, zone, step: Step::TogglePower }),
{
    Command::ZoneStep { ip, zone, step: Step::TogglePower }
}

/// Raises the zone's volume by one step.
pub fn set_volume_up(ip: String, zone: String) -> (c: Command)
    ensures
        c == (Command::ZoneStep { ip, zone, step: Step::VolumeUp }),
{
    Command::ZoneStep { ip, zone, step: Step::VolumeUp }
}

/// Lowers the zone's volume by one step.
pub fn set_volume_down(ip: String, zone: String) -> (c: Command)
    ensures
        c == (Command::ZoneStep { ip, zone, step: Step::VolumeDown }),
{
    Command::ZoneStep { ip, zone, step: Step::VolumeDown }
}

/// Sets the zone's volume.
pub fn set_volume(ip: String, zone: String, volume: i32) -> (c: Command)
    ensures
        c == (Command::ZoneLevel { ip, zone, level: Level::Volume, value: volume }),
{
    Command::ZoneLevel { ip, zone, level: Level::Volume, value: volume }
}

/// Sets the zone's left/right balance.
pub fn set_balance(ip: String, zone: String, balance: i32) -> (c: Command)
    ensures
        c == (Command::ZoneLevel { ip, zone, level: Level::Balance, value: balance }),
{
    Command::ZoneLevel { ip, zone, level: Level::Balance, value: balance }
}

/// Sets the zone's subwoofer level.
pub fn set_subwoofer_volume(ip: String, volume: i32, zone: String) -> (c: Command)
    ensures
        c == (Command::ZoneLevel { ip, zone, level: Level::SubwooferVolume, value: volume }),
{
    Command::ZoneLevel { ip, zone, level: Level::SubwooferVolume, value: volume }
}

/// Sets the zone's dialogue lift.
pub fn set_dialogue_lift(ip: String, value: i32, zone: String) -> (c: Command)
    ensures
        c == (Command::ZoneLevel { ip, zone, level: Level::DialogueLift, value }),
{
    Command::ZoneLevel { ip, zone, level: Level::DialogueLift, value }
}

/// Sets the zone's dialogue level.
pub fn set_dialogue_level(ip: String, value: i32, zone: String) -> (c: Command)
    ensures
        c == (Command::ZoneLevel { ip, zone, level: Level::DialogueLevel, value }),
{
    Command::ZoneLevel { ip, zone, level: Level::DialogueLevel, value }
}

/// Sets the zone's DTS dialogue control.
pub fn set_dts_dialogue_control(ip: String, value: i32, zone: String) -> (c: Command)
    ensures
        c == (Command::ZoneLevel { ip, zone, level: Level::DtsDialogueControl, value }),
{
    Command::ZoneLevel { ip, zone, level: Level::DtsDialogueControl, value }
}

/// Sets the zone's bass tone.
pub fn set_tone_bass(ip: String, value: i32, zone: String) -> (c: Command)
    ensures
        c == (Command::ZoneLevel { ip, zone, level: Level::ToneBass, value }),
{
    Command::ZoneLevel { ip, zone, level: Level::ToneBass, value }
}

/// Sets the zone's treble tone.
pub fn set_tone_treble(ip: String, value: i32, zone: String) -> (c: Command)
    ensures
        c == (Command::ZoneLevel { ip, zone, level: Level::ToneTreble, value }),
{
    Command::ZoneLevel { ip, zone, level: Level::ToneTreble, value }
}

/// Mutes or unmutes the zone.
pub fn set_mute(ip: String, zone: String, enabled: bool) -> (c: Command)
    ensures
        c == (Command::ZoneSwitch { ip, zone, switch: Switch::Mute, enabled }),
{
    Command::ZoneSwitch { ip, zone, switch: Switch::Mute, enabled }
}

/// Switches the zone's enhancer.
pub fn set_enhancer(ip: String, zone: String, enabled: bool) -> (c: Command)
    ensures
        c == (Command::ZoneSwitch { ip, zone, switch: Switch::Enhancer, enabled }),
{
    Command::ZoneSwitch { ip, zone, switch: Switch::Enhancer, enabled }
}

/// Switches the zone's extra bass.
pub fn set_extra_bass(ip: String, zone: String, enabled: bool) -> (c: Command)
    ensures
        c == (Command::ZoneSwitch { ip, zone, switch: Switch::ExtraBass, enabled }),
{
    Command::ZoneSwitch { ip, zone, switch: Switch::ExtraBass, enabled }
}

/// Switches the zone's pure direct mode.
pub fn set_pure_direct(ip: String, zone: String, enabled: bool) -> (c: Command)
    ensures
        c == (Command::ZoneSwitch { ip, zone, switch: Switch::PureDirect, enabled }),
{
    Command::ZoneSwitch { ip, zone, switch: Switch::PureDirect, enabled }
}

/// Switches the zone's direct mode.
pub fn set_direct(ip: String, zone: String, enabled: bool) -> (c: Command)
    ensures
        c == (Command::ZoneSwitch { ip, zone, switch: Switch::Direct, enabled }),
{
    Command::ZoneSwitch { ip, zone, switch: Switch::Direct, enabled }
}

/// Switches the zone's 3D surround.
pub fn set_3d_surround(ip: String, zone: String, enabled: bool) -> (c: Command)
    ensures
        c == (Command::ZoneSwitch { ip, zone, switch: Switch::Surround3d, enabled }),
{
    Command::ZoneSwitch { ip, zone, switch: Switch::Surround3d, enabled }
}

/// Selects the zone's sound program.
pub fn set_sound_program(ip: String, zone: String, program: String) -> (c: Command)
    ensures
        c == (Command::SoundProgram { ip, zone, program }),
{
    Command::SoundProgram { ip, zone, program }
}

/// Selects the zone's input source.
pub fn set_input(ip: String, input: String, zone: String) -> (c: Command)
    ensures
        c == (Command::Input { ip, zone, input }),
{
    Command::Input { ip, zone, input }
}

/// Sets the zone's sleep timer, in minutes.
pub fn set_sleep(ip: String, zone: String, time: u32) -> (c: Command)
    ensures
        c == (Command::Sleep { ip, zone, minutes: time }),
{
    Command::Sleep { ip, zone, minutes: time }
}

/// Switches the YPAO volume correction.
pub fn set_ypao_volume(ip: String, enabled: bool) -> (c: Command)
    ensures
        c == (Command::YpaoVolume { ip, enabled }),
{
    Command::YpaoVolume { ip, enabled }
}

/// Sends a transport intent to the network/USB player.
pub fn net_usb_set_playback(ip: String, playback: Playback) -> (c: Command)
    ensures
        c == (Command::SetPlayback { ip, playback }),
{
    Command::SetPlayback { ip, playback }
}

/// Sets the network/USB player's repeat mode.
pub fn net_usb_set_repeat(ip: String, mode: Repeat) -> (c: Command)
    ensures
        c == (Command::SetRepeat { ip, mode }),
{
    Command::SetRepeat { ip, mode }
}

/// Sets the network/USB player's shuffle mode.
pub fn net_usb_set_shuffle(ip: String, mode: Shuffle) -> (c: Command)
    ensures
        c == (Command::SetShuffle { ip, mode }),
{
    Command::SetShuffle { ip, mode }
}

/// Steps the network/USB player's repeat mode to the next one.
pub fn net_usb_toggle_repeat(ip: String) -> (c: Command)
    ensures
        c == (Command::ToggleRepeat { ip }),
{
    Command::ToggleRepeat { ip }
}

/// Steps the network/USB player's shuffle mode to the next one.
pub fn net_usb_toggle_shuffle(ip: String) -> (c: Command)
    ensures
        c == (Command::ToggleShuffle { ip }),
{
    Command::ToggleShuffle { ip }
}

/// Navigates a network/USB list: the index and the zone are optional.
pub fn net_usb_set_list_control(ip: String, list_id: String, control_type: ListControl, index: Option<u32>, zone: Option<String>) -> (c: Command)
    ensures
        c == (Command::ListCommand { ip, list_id, control: control_type, index, zone }),
{
    Command::ListCommand { ip, list_id, control: control_type, index, zone }
}

/// Submits a search text to a network/USB list.
pub fn net_usb_set_search_string(ip: String, list_id: String, search_text: String, index: Option<u32>) -> (c: Command)
    ensures
        c == (Command::SearchString { ip, list_id, text: search_text, index }),
{
    Command::SearchString { ip, list_id, text: search_text, index }
}

/// Seeks the network/USB player to a position in the current track.
pub fn set_play_position(ip: String, position: u32) -> (c: Command)
    ensures
        c == (Command::PlayPosition { ip, position }),
{
    Command::PlayPosition { ip, position }
}

/// Plays an item of the recent list in a zone.
pub fn recall_recent_item(ip: String, zone: String, item: u32) -> (c: Command)
    ensures
        c == (Command::RecallRecent { ip, zone, item }),
{
    Command::RecallRecent { ip, zone, item }
}

} // verus!
