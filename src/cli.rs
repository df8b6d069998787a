use vstd::prelude::*;

verus! {

/// What the command line asks for. Paths are kept as the text given.
#[derive(Debug, Clone, PartialEq, Eq)]
pub struct Args {
    pub config: String,
    pub command: Option<Command>,
    /// Overrides the address to connect to.
    pub address: Option<String>,
    /// Overrides the daemon's password.
    pub password: Option<String>,
}

/// The subcommands of the command line.
#[derive(Debug, Clone, PartialEq, Eq)]
pub enum Command {
    Config { current: bool },
    Theme { current: bool },
    LyricsIndex,
    Update { path: Option<String>, wait: bool },
    Rescan { path: Option<String>, wait: bool },
    AlbumArt { output: String },
    DebugInfo,
    Version,
    Play { position: Option<usize> },
    Pause,
    Unpause,
    TogglePause,
    Stop,
    Next,
    Prev,
    Volume { value: Option<String> },
    Repeat { value: OnOff },
    Random { value: OnOff },
    Single { value: OnOffOneshot },
    Consume { value: OnOffOneshot },
    Seek { value: String },
    Clear,
    Add { files: Vec<String>, skip_ext_check: bool },
    AddYt { url: String },
    Outputs,
    ToggleOutput { id: u32 },
    EnableOutput { id: u32 },
    DisableOutput { id: u32 },
    Decoders,
    Status,
    Song { path: Option<Vec<String>> },
    Mount { name: String, path: String },
    Unmount { name: String },
    ListMounts,
    Sticker { cmd: StickerCmd },
    Remote { pid: Option<u32>, command: RemoteCmd },
}

/// Commands sent to a running instance.
#[derive(Debug, Clone, PartialEq, Eq)]
pub enum RemoteCmd {
    IndexLrc { path: String },
    Status { message: String, level: Level },
    Tmux { hook: String },
    SetValue { command: SetCommand },
}

/// What a running instance replaces.
#[derive(Debug, Clone, PartialEq, Eq)]
pub enum SetCommand {
    Config { path: String },
    Theme { path: String },
}

/// How a status bar message is colored.
#[derive(Debug, Clone, Copy, PartialEq, Eq, Structural)]
pub enum Level {
    Info,
    Error,
    Warn,
}

/// Sticker queries and changes.
#[derive(Debug, Clone, PartialEq, Eq)]
pub enum StickerCmd {
    SetValue { uri: String, key: String, value: String },
    Get { uri: String, key: String },
    List { uri: String },
    Find { uri: String, key: String },
    Delete { uri: String, key: String },
    DeleteAll { uri: String },
}

#[derive(Debug, Clone, Copy, PartialEq, Eq, Structural)]
pub enum OnOff {
    On,
    Off,
}

#[derive(Debug, Clone, Copy, PartialEq, Eq, Structural)]
pub enum OnOffOneshot {
    On,
    Off,
    /// The song leaves the queue once played.
    Oneshot,
}

} // verus!
