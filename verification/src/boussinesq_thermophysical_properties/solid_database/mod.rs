pub mod pyrogel_hps;
