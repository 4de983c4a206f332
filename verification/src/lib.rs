//! Verified core of the contacts, receive and descriptor-installation screens
//! of the Liana wallet GUI: the state machines that react to user and device
//! events, the identity-key parameters built for wallet registration, and the
//! decisions that the views render.

pub mod text;
pub mod hexcode;
pub mod pubkey;
pub mod settings;
pub mod hw;
pub mod contacts_panel;
pub mod descriptor;
pub mod identity;
pub mod installer;
pub mod import_descriptor;
pub mod register_descriptor;
pub mod backup_descriptor;
pub mod contacts_view;
pub mod receive_view;
