//! Message numbers (RFC 4250, section 4.1).

use vstd::prelude::*;

verus! {

pub const DISCONNECT: u8 = 1;

pub const IGNORE: u8 = 2;

pub const UNIMPLEMENTED: u8 = 3;

pub const DEBUG: u8 = 4;

pub const SERVICE_REQUEST: u8 = 5;

pub const SERVICE_ACCEPT: u8 = 6;

pub const EXT_INFO: u8 = 7;

pub const KEXINIT: u8 = 20;

pub const NEWKEYS: u8 = 21;

pub const USERAUTH_REQUEST: u8 = 50;

pub const USERAUTH_FAILURE: u8 = 51;

pub const USERAUTH_SUCCESS: u8 = 52;

pub const USERAUTH_BANNER: u8 = 53;

pub const USERAUTH_PASSWD_CHANGEREQ: u8 = 60;

pub const GLOBAL_REQUEST: u8 = 80;

pub const CHANNEL_OPEN: u8 = 90;

pub const CHANNEL_OPEN_CONFIRMATION: u8 = 91;

pub const CHANNEL_OPEN_FAILURE: u8 = 92;

pub const CHANNEL_WINDOW_ADJUST: u8 = 93;

pub const CHANNEL_DATA: u8 = 94;

pub const CHANNEL_EXTENDED_DATA: u8 = 95;

pub const CHANNEL_EOF: u8 = 96;

pub const CHANNEL_CLOSE: u8 = 97;

pub const CHANNEL_REQUEST: u8 = 98;

pub const CHANNEL_SUCCESS: u8 = 99;

pub const CHANNEL_FAILURE: u8 = 100;

} // verus!
