use vstd::prelude::*;

use crate::protocol::enums::TraceLevel;
use crate::protocol::text::{parse_unsigned, parse_unsigned_chars};
use crate::protocol::types::error::zeros;
use crate::protocol::uc_str::{uc_chars, UCStr};

verus! {

/// The attributes block of an RFC connection (`RFC_ATTRIBUTES`): each attribute is a
/// nul-terminated SAP unicode buffer of fixed size.
#[derive(Debug, Copy, Clone, PartialEq, Eq, Hash)]
pub struct RfcAttributes {
    /// RFC destination.
    pub dest: [u16; 65],
    /// Own host name.
    pub host: [u16; 101],
    /// Partner host name.
    pub partner_host: [u16; 101],
    /// R/3 system number.
    pub sys_number: [u16; 3],
    /// R/3 system ID.
    pub sys_id: [u16; 9],
    /// Client ("Mandant").
    pub client: [u16; 4],
    /// User.
    pub user: [u16; 13],
    /// Language.
    pub language: [u16; 3],
    /// Trace level (0-3).
    pub trace: [u16; 2],
    /// 2 characters ISO language code.
    pub iso_language: [u16; 3],
    /// Own code page.
    pub codepage: [u16; 5],
    /// Partner code page.
    pub partner_codepage: [u16; 5],
    /// RFC Client (C) or RFC Server (S).
    pub rfc_role: [u16; 2],
    /// Own system type: R/2 (2), R/3 (3), External (E), Registered External (R).
    pub system_type: [u16; 2],
    /// Partner system type: R/2 (2), R/3 (3), External (E), Registered External (R).
    pub partner_system_type: [u16; 2],
    /// Own system release.
    pub release: [u16; 5],
    /// Partner system release.
    pub partner_release: [u16; 5],
    /// Partner kernel release.
    pub partner_kernel_release: [u16; 5],
    /// CPI-C conversion ID.
    pub cpic_conversion_id: [u16; 9],
    /// Name of the calling ABAP program (report, module pool).
    pub program_name: [u16; 129],
    /// Number of bytes per character in the partners current codepage.
    pub partner_bytes_per_char: [u16; 2],
    /// Partner system code page.
    pub partner_system_codepage: [u16; 5],
    /// Partner IPv4 address.
    pub partner_ip: [u16; 16],
    /// Partner IPv6 address.
    pub partner_ipv6: [u16; 46],
}

impl Default for RfcAttributes {
    fn default() -> (r: Self)
        ensures
            r.dest@ == zeros(65),
            r.host@ == zeros(101),
            r.partner_host@ == zeros(101),
            r.sys_number@ == zeros(3),
            r.sys_id@ == zeros(9),
            r.client@ == zeros(4),
            r.user@ == zeros(13),
            r.language@ == zeros(3),
            r.trace@ == zeros(2),
            r.iso_language@ == zeros(3),
            r.codepage@ == zeros(5),
            r.partner_codepage@ == zeros(5),
            r.rfc_role@ == zeros(2),
            r.system_type@ == zeros(2),
            r.partner_system_type@ == zeros(2),
            r.release@ == zeros(5),
            r.partner_release@ == zeros(5),
            r.partner_kernel_release@ == zeros(5),
            r.cpic_conversion_id@ == zeros(9),
            r.program_name@ == zeros(129),
            r.partner_bytes_per_char@ == zeros(2),
            r.partner_system_codepage@ == zeros(5),
            r.partner_ip@ == zeros(16),
            r.partner_ipv6@ == zeros(46),
    {
        let r = RfcAttributes {
            dest: [0u16; 65],
            host: [0u16; 101],
            partner_host: [0u16; 101],
            sys_number: [0u16; 3],
            sys_id: [0u16; 9],
            client: [0u16; 4],
            user: [0u16; 13],
            language: [0u16; 3],
            trace: [0u16; 2],
            iso_language: [0u16; 3],
            codepage: [0u16; 5],
            partner_codepage: [0u16; 5],
            rfc_role: [0u16; 2],
            system_type: [0u16; 2],
            partner_system_type: [0u16; 2],
            release: [0u16; 5],
            partner_release: [0u16; 5],
            partner_kernel_release: [0u16; 5],
            cpic_conversion_id: [0u16; 9],
            program_name: [0u16; 129],
            partner_bytes_per_char: [0u16; 2],
            partner_system_codepage: [0u16; 5],
            partner_ip: [0u16; 16],
            partner_ipv6: [0u16; 46],
        };
        proof {
            assert(r.dest@ =~= zeros(65));
            assert(r.host@ =~= zeros(101));
            assert(r.partner_host@ =~= zeros(101));
            assert(r.sys_number@ =~= zeros(3));
            assert(r.sys_id@ =~= zeros(9));
            assert(r.client@ =~= zeros(4));
            assert(r.user@ =~= zeros(13));
            assert(r.language@ =~= zeros(3));
            assert(r.trace@ =~= zeros(2));
            assert(r.iso_language@ =~= zeros(3));
            assert(r.codepage@ =~= zeros(5));
            assert(r.partner_codepage@ =~= zeros(5));
            assert(r.rfc_role@ =~= zeros(2));
            assert(r.system_type@ =~= zeros(2));
            assert(r.partner_system_type@ =~= zeros(2));
            assert(r.release@ =~= zeros(5));
            assert(r.partner_release@ =~= zeros(5));
            assert(r.partner_kernel_release@ =~= zeros(5));
            assert(r.cpic_conversion_id@ =~= zeros(9));
            assert(r.program_name@ =~= zeros(129));
            assert(r.partner_bytes_per_char@ =~= zeros(2));
            assert(r.partner_system_codepage@ =~= zeros(5));
            assert(r.partner_ip@ =~= zeros(16));
            assert(r.partner_ipv6@ =~= zeros(46));
        }
        r
    }
}

/// Information about the partner system on the other side of an RFC connection.
#[derive(Debug, Clone, Copy, PartialEq, Eq, Hash)]
pub struct ConnectionAttributes {
    attrs: RfcAttributes,
}

impl View for ConnectionAttributes {
    type V = RfcAttributes;

    closed spec fn view(&self) -> RfcAttributes {
        self.attrs
    }
}

impl ConnectionAttributes {
    /// The connection attributes that an attributes block holds.
    pub fn from_attrs(attrs: RfcAttributes) -> (r: Self)
        ensures
            r@ == attrs,
    {
        Self { attrs }
    }

    /// The attributes block.
    pub fn attrs(&self) -> (r: &RfcAttributes)
        ensures
            *r == self@,
    {
        &self.attrs
    }

    /// RFC destination.
    pub fn dest(&self) -> (r: String)
        ensures
            r@ == uc_chars(self@.dest@),
    {
        UCStr::slice_to_string_lossy(&self.attrs.dest)
    }

    /// Own host name.
    pub fn host(&self) -> (r: String)
        ensures
            r@ == uc_chars(self@.host@),
    {
        UCStr::slice_to_string_lossy(&self.attrs.host)
    }

    /// Partner host name.
    pub fn partner_host(&self) -> (r: String)
        ensures
            r@ == uc_chars(self@.partner_host@),
    {
        UCStr::slice_to_string_lossy(&self.attrs.partner_host)
    }

    /// R/3 system number.
    pub fn sys_number(&self) -> (r: String)
        ensures
            r@ == uc_chars(self@.sys_number@),
    {
        UCStr::slice_to_string_lossy(&self.attrs.sys_number)
    }

    /// R/3 system ID.
    pub fn sys_id(&self) -> (r: String)
        ensures
            r@ == uc_chars(self@.sys_id@),
    {
        UCStr::slice_to_string_lossy(&self.attrs.sys_id)
    }

    /// Client ("Mandant").
    pub fn client(&self) -> (r: String)
        ensures
            r@ == uc_chars(self@.client@),
    {
        UCStr::slice_to_string_lossy(&self.attrs.client)
    }

    /// User.
    pub fn user(&self) -> (r: String)
        ensures
            r@ == uc_chars(self@.user@),
    {
        UCStr::slice_to_string_lossy(&self.attrs.user)
    }

    /// Language.
    pub fn language(&self) -> (r: String)
        ensures
            r@ == uc_chars(self@.language@),
    {
        UCStr::slice_to_string_lossy(&self.attrs.language)
    }

    /// 2 characters ISO language code.
    pub fn iso_language(&self) -> (r: String)
        ensures
            r@ == uc_chars(self@.iso_language@),
    {
        UCStr::slice_to_string_lossy(&self.attrs.iso_language)
    }

    /// Own code page.
    pub fn codepage(&self) -> (r: String)
        ensures
            r@ == uc_chars(self@.codepage@),
    {
        UCStr::slice_to_string_lossy(&self.attrs.codepage)
    }

    /// Partner code page.
    pub fn partner_codepage(&self) -> (r: String)
        ensures
            r@ == uc_chars(self@.partner_codepage@),
    {
        UCStr::slice_to_string_lossy(&self.attrs.partner_codepage)
    }

    /// RFC Client (C) or RFC Server (S).
    pub fn rfc_role(&self) -> (r: String)
        ensures
            r@ == uc_chars(self@.rfc_role@),
    {
        UCStr::slice_to_string_lossy(&self.attrs.rfc_role)
    }

    /// Own system type: R/2 (2), R/3 (3), External (E), Registered External (R).
    pub fn system_type(&self) -> (r: String)
        ensures
            r@ == uc_chars(self@.system_type@),
    {
        UCStr::slice_to_string_lossy(&self.attrs.system_type)
    }

    /// Partner system type: R/2 (2), R/3 (3), External (E), Registered External (R).
    pub fn partner_system_type(&self) -> (r: String)
        ensures
            r@ == uc_chars(self@.partner_system_type@),
    {
        UCStr::slice_to_string_lossy(&self.attrs.partner_system_type)
    }

    /// Own system release.
    pub fn release(&self) -> (r: String)
        ensures
            r@ == uc_chars(self@.release@),
    {
        UCStr::slice_to_string_lossy(&self.attrs.release)
    }

    /// Partner system release.
    pub fn partner_release(&self) -> (r: String)
        ensures
            r@ == uc_chars(self@.partner_release@),
    {
        UCStr::slice_to_string_lossy(&self.attrs.partner_release)
    }

    /// Partner kernel release.
    pub fn partner_kernel_release(&self) -> (r: String)
        ensures
            r@ == uc_chars(self@.partner_kernel_release@),
    {
        UCStr::slice_to_string_lossy(&self.attrs.partner_kernel_release)
    }

    /// CPI-C conversion ID.
    pub fn cpic_conversion_id(&self) -> (r: String)
        ensures
            r@ == uc_chars(self@.cpic_conversion_id@),
    {
        UCStr::slice_to_string_lossy(&self.attrs.cpic_conversion_id)
    }

    /// Name of the calling ABAP program (report, module pool).
    pub fn program_name(&self) -> (r: String)
        ensures
            r@ == uc_chars(self@.program_name@),
    {
        UCStr::slice_to_string_lossy(&self.attrs.program_name)
    }

    /// Partner system code page.
    pub fn partner_system_codepage(&self) -> (r: String)
        ensures
            r@ == uc_chars(self@.partner_system_codepage@),
    {
        UCStr::slice_to_string_lossy(&self.attrs.partner_system_codepage)
    }

    /// Trace level (0-3). The attribute must hold one of the digits `0` to `3`.
    pub fn trace(&self) -> (r: TraceLevel)
        requires
            TraceLevel::spec_from_chars(uc_chars(self@.trace@)) is Some,
        ensures
            TraceLevel::spec_from_chars(uc_chars(self@.trace@)) == Some(r),
    {
        let level = UCStr::slice_to_string_lossy(&self.attrs.trace);
        match TraceLevel::try_from_str(level.as_str()) {
            Ok(t) => t,
            Err(_) => TraceLevel::Off,
        }
    }

    /// Number of bytes per character in the partners current codepage.
    ///
    /// **_Note:_** This is different from the semantics of the PCS parameter. The
    /// attribute must hold a decimal number in the `u32` range.
    pub fn partner_bytes_per_char(&self) -> (r: u32)
        requires
            parse_unsigned(uc_chars(self@.partner_bytes_per_char@), u32::MAX as nat) is Some,
        ensures
            parse_unsigned(uc_chars(self@.partner_bytes_per_char@), u32::MAX as nat) == Some(
                r as nat,
            ),
    {
        let chars = UCStr::slice_chars(&self.attrs.partner_bytes_per_char);
        assert(chars@.subrange(0, chars@.len() as int) =~= chars@);
        parse_unsigned_chars(&chars, 0, chars.len(), 0xFFFF_FFFF).unwrap()
    }
}

} // verus!
