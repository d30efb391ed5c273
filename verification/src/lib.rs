use vstd::prelude::*;

pub mod text;
pub mod duration;
pub mod parse;
pub mod track;
pub mod serp;
pub mod youtube;
pub mod spotify;
pub mod encoding;
pub mod audio;
pub mod coingecko;
pub mod queue;
pub mod music;
pub mod controls;
pub mod player;
pub mod flags;
pub mod handlers;
pub mod brave;
pub mod ai;
pub mod timer;
pub mod image;
pub mod openai;
pub mod admin;
pub mod autoplay;
pub mod cache;
pub mod flows;
pub mod coin_ids;

verus! {

} // verus!
