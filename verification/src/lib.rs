//! The platform logic of the Khíín Taiwanese input method for Windows: key
//! handling, candidate paging and layout, composition planning, the wide
//! strings and packed parameters of Win32, and the interface texts.
use vstd::prelude::*;

pub mod candidate_list_ui;
pub mod class_factory;
pub mod compartment;
pub mod composition;
pub mod engine;
pub mod geometry;
pub mod key_event;
pub mod key_event_sink;
pub mod lang_bar;
pub mod layout;
pub mod locales;
pub mod pager;
pub mod pcwstr;
pub mod preserved_keys;
pub mod renderer;
pub mod resource;
pub mod settings;
pub mod settings_app_locales;
pub mod settings_locales;
pub mod settings_pages;
pub mod settings_resource;
pub mod sink;
pub mod systray;
pub mod text;
pub mod text_service;
pub mod win;
pub mod wpreedit;
