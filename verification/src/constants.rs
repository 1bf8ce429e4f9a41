//! Fixed parameters of the plugin.

use vstd::prelude::*;

verus! {

/// Path given to server URLs that name none.
pub const DEFAULT_SERVER_PATH: &'static str = "/sendspin";

/// DNS-SD service type under which Sendspin servers announce themselves.
pub const SENDSPIN_SERVER_SERVICE_TYPE: &'static str = "_sendspin-server._tcp.local.";

/// Client name used when the user and the environment give none.
pub const DEFAULT_CLIENT_NAME: &'static str = "Sendspin VST";

/// Product name reported to servers.
pub const PRODUCT_NAME: &'static str = "Sendspin VST";

/// Longest client name in characters.
pub const MAX_CLIENT_NAME_CHARS: usize = 80;

/// Buffer capacity reported to servers.
pub const BUFFER_CAPACITY_BYTES: u32 = 1_048_576;

/// Slots of the queue between the network and the audio thread.
pub const CHUNK_QUEUE_CAPACITY: usize = 512;

/// How far a chunk may be off its play time and still start at its first frame.
pub const TIMING_JITTER_TOLERANCE_US: i64 = 1_000;

/// Drift from the wall clock beyond which the render clock is set anew.
pub const RENDER_CLOCK_REANCHOR_THRESHOLD_US: i64 = 250_000;

/// Play delay given to chunks that arrive before the clocks are synchronized.
pub const UNSYNCHRONIZED_PLAY_DELAY_US: i64 = 150_000;

/// Bit depth asked of servers.
pub const PREFERRED_PCM_BIT_DEPTH: u8 = 24;

/// Sample rate asked of servers while the host's is not known.
pub const FALLBACK_STREAM_SAMPLE_RATE_HZ: u32 = 44_100;

/// Smallest pipeline offset.
pub const PIPELINE_OFFSET_MIN_MS: i32 = -100;

/// Largest pipeline offset.
pub const PIPELINE_OFFSET_MAX_MS: i32 = 200;

/// Step of the pipeline offset buttons.
pub const PIPELINE_OFFSET_STEP_MS: i32 = 1;

/// Consecutive blocks without audio after which the player reports an error.
pub const UNDERRUN_ERROR_THRESHOLD_BLOCKS: u32 = 3;

/// Consecutive blocks with audio after which the player reports recovery.
pub const RECOVERY_SYNC_THRESHOLD_BLOCKS: u32 = 4;

/// Reconnect delay after a connection that worked.
pub const INITIAL_RECONNECT_DELAY_MS: u64 = 1_000;

/// Reconnect delay after the user changed something.
pub const PROMPT_RECONNECT_DELAY_MS: u64 = 100;

/// Longest reconnect delay, and the wait while no server is configured.
pub const MAX_RECONNECT_DELAY_MS: u64 = 30_000;

} // verus!
