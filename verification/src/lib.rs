//! Player-facing HUD copy and status logic for the Biofoundry colony game:
//! route summaries, campaign guidance, workstation status and the short
//! labels shown on buttons and banners.

pub mod guidance;
pub mod help;
pub mod hud;
pub mod inspect;
pub mod jobs;
pub mod laws;
pub mod legibility;
pub mod model;
pub mod objective;
pub mod requirements;
pub mod routes;
pub mod specialists;
pub mod status;
pub mod text;
pub mod top_bar;
pub mod upgrades;
