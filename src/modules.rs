pub mod radarr;
