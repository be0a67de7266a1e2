//! Component-model activation: identifiers, flags, and the reading of the
//! runtime's answer to initialisation.

use vstd::prelude::*;
use crate::ll::types::{DWORD, HRESULT};

verus! {

/// A 128-bit identifier of a class or an interface.
#[derive(Clone, Copy, Debug, PartialEq, Eq)]
pub struct GUID {
    pub data1: u32,
    pub data2: u16,
    pub data3: u16,
    pub data4: [u8; 8],
}

pub const COINIT_APARTMENTTHREADED: DWORD = 0x2;

pub const COINIT_MULTITHREADED: DWORD = 0x0;

pub const COINIT_DISABLE_OLE1DDE: DWORD = 0x4;

pub const COINIT_SPEED_OVER_MEMORY: DWORD = 0x8;

pub const CLSCTX_INPROC_SERVER: DWORD = 0x1;

pub const CLSCTX_INPROC_HANDLER: DWORD = 0x2;

pub const CLSCTX_LOCAL_SERVER: DWORD = 0x4;

pub const CLSCTX_INPROC_SERVER16: DWORD = 0x8;

pub const CLSCTX_REMOTE_SERVER: DWORD = 0x10;

pub const CLSCTX_INPROC_HANDLER16: DWORD = 0x20;

pub const CLSCTX_RESERVED1: DWORD = 0x40;

pub const CLSCTX_RESERVED2: DWORD = 0x80;

pub const CLSCTX_RESERVED3: DWORD = 0x100;

pub const CLSCTX_RESERVED4: DWORD = 0x200;

pub const CLSCTX_NO_CODE_DOWNLOAD: DWORD = 0x400;

pub const CLSCTX_RESERVED5: DWORD = 0x800;

pub const CLSCTX_NO_CUSTOM_MARSHAL: DWORD = 0x1000;

pub const CLSCTX_ENABLE_CODE_DOWNLOAD: DWORD = 0x2000;

pub const CLSCTX_NO_FAILURE_LOG: DWORD = 0x4000;

pub const CLSCTX_DISABLE_AAA: DWORD = 0x8000;

pub const CLSCTX_ENABLE_AAA: DWORD = 0x10000;

pub const CLSCTX_FROM_DEFAULT_CONTEXT: DWORD = 0x20000;

pub const CLSCTX_ACTIVATE_32_BIT_SERVER: DWORD = 0x40000;

pub const CLSCTX_ACTIVATE_64_BIT_SERVER: DWORD = 0x80000;

pub const CLSCTX_ENABLE_CLOAKING: DWORD = 0x100000;

pub const CLSCTX_APPCONTAINER: DWORD = 0x400000;

pub const CLSCTX_ACTIVATE_AAA_AS_IU: DWORD = 0x800000;

pub const CLSCTX_PS_DLL: DWORD = 0x80000000;

/// Every place a server may run in: in process, as an in-process handler,
/// locally, or remotely.
pub const CLSCTX_ALL: DWORD = CLSCTX_INPROC_SERVER | CLSCTX_INPROC_HANDLER | CLSCTX_LOCAL_SERVER
    | CLSCTX_REMOTE_SERVER;

/// Reads the runtime's answer to initialisation: zero is success, and any
/// other code is handed on as the error.
pub fn initialized(ret: HRESULT) -> (r: Result<(), HRESULT>)
    ensures
        ret == 0 ==> r == Ok::<(), HRESULT>(()),
        ret != 0 ==> r == Err::<(), HRESULT>(ret),
{
    if ret == 0 {
        Ok(())
    } else {
        Err(ret)
    }
}

} // verus!
