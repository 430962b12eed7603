pub mod playlist_model;
pub mod track_model;
