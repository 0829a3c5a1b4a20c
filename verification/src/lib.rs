//! Navigation, bookmark, history and texture-cache logic of an image viewer.

pub mod index;
pub mod que;
pub mod cache;
pub mod title;
pub mod wiever;
pub mod laws;
pub mod keys;
pub mod redraw;

pub use cache::{CachedTexture, TextureCache, TEXTURE_CACHE_MAX_BYTE_SIZE};
pub use index::Index;
pub use keys::{Command, Event, Key, KeyPress};
pub use wiever::Wiever;
