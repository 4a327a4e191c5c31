//! Process and pseudo-terminal orchestration: output pumping under a byte
//! ceiling, deterministic termination, the session table, and the sidecar
//! readiness handshake. The decisions live here; the caller performs the
//! reads, writes, kills and waits they call for.

pub mod bridge;
pub mod driver;
pub mod handshake;
pub mod pump;
pub mod registry;
pub mod scan;
pub mod session;
pub mod text;
pub mod voice;

pub use bridge::{BridgeControl, BridgeStep, CliReadyEvent, SidecarEvent};
pub use driver::{DriverCapabilities, DriverMethod, WindowsDriver};
pub use handshake::{Handshake, JsonMember};
pub use pump::{OutputPump, PumpInput, PumpStep, ReadResult};
pub use registry::{SessionError, SessionRegistry};
pub use session::{PtyControl, SessionOp, TerminalSize};
pub use voice::TtsResult;
