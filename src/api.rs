//! The shapes of requests and answers at the HTTP boundary, and the small
//! decisions made there.

use vstd::prelude::*;
use crate::controller::{ClashError, ClashErrorKind, EnhancedMode};
use crate::settings::{Settings, SettingsPatch};

verus! {

/// A form with a single value.
pub struct SingleParam<T> {
    pub param: T,
}

/// The envelope of every answer: whether the call succeeded, and its data.
pub struct StatusResponse<T> {
    pub success: bool,
    pub data: Option<T>,
}

/// A success with no data.
pub fn ok() -> (r: StatusResponse<()>)
    ensures
        r.success,
        r.data is None,
{
    StatusResponse { success: true, data: None }
}

impl ClashError {
    /// The HTTP status an error is answered with.
    pub fn status_code(&self) -> (r: u16)
        ensures
            self.error_kind == ClashErrorKind::ConfigNotFound ==> r == 404,
            self.error_kind == ClashErrorKind::ContentError ==> r == 400,
            self.error_kind != ClashErrorKind::ConfigNotFound && self.error_kind != ClashErrorKind::ContentError
                ==> r == 500,
    {
        match self.error_kind {
            ClashErrorKind::ConfigNotFound => 404,
            ClashErrorKind::ContentError => 400,
            _ => 500,
        }
    }

    /// The failure envelope of an error: its message as data.
    pub fn error_response(&self) -> (r: StatusResponse<String>)
        ensures
            !r.success,
            r.data matches Some(m) && m@ == self.message@,
    {
        StatusResponse { success: false, data: Some(self.message.clone()) }
    }
}

pub struct DownloadSubParams {
    pub link: String,
}

pub struct GenLinkParams {
    pub link: String,
    pub subconv: bool,
}

pub struct SkipProxyParams {
    pub skip_proxy: bool,
}

pub struct AllowRemoteAccessParams {
    pub allow_remote_access: bool,
}

pub struct OverrideDNSParams {
    pub override_dns: bool,
}

pub struct EnhancedModeParams {
    pub enhanced_mode: EnhancedMode,
}

pub struct DashboardParams {
    pub dashboard: String,
}

impl SkipProxyParams {
    /// The settings change the form asks for.
    pub fn patch(&self) -> (r: SettingsPatch)
        ensures
            r == SettingsPatch::SkipProxy(self.skip_proxy),
    {
        SettingsPatch::SkipProxy(self.skip_proxy)
    }
}

impl AllowRemoteAccessParams {
    /// The settings change the form asks for.
    pub fn patch(&self) -> (r: SettingsPatch)
        ensures
            r == SettingsPatch::AllowRemoteAccess(self.allow_remote_access),
    {
        SettingsPatch::AllowRemoteAccess(self.allow_remote_access)
    }
}

impl OverrideDNSParams {
    /// The settings change the form asks for.
    pub fn patch(&self) -> (r: SettingsPatch)
        ensures
            r == SettingsPatch::OverrideDns(self.override_dns),
    {
        SettingsPatch::OverrideDns(self.override_dns)
    }
}

impl EnhancedModeParams {
    /// The settings change the form asks for.
    pub fn patch(&self) -> (r: SettingsPatch)
        ensures
            r == SettingsPatch::EnhancedMode(self.enhanced_mode),
    {
        SettingsPatch::EnhancedMode(self.enhanced_mode)
    }
}

impl DashboardParams {
    /// The settings change the form asks for.
    pub fn into_patch(self) -> (r: SettingsPatch)
        ensures
            r == SettingsPatch::Dashboard(self.dashboard),
    {
        SettingsPatch::Dashboard(self.dashboard)
    }
}

pub struct GenLinkResponse {
    pub status_code: u16,
    pub message: String,
}

pub struct SkipProxyResponse {
    pub status_code: u16,
    pub message: String,
}

pub struct OverrideDNSResponse {
    pub status_code: u16,
    pub message: String,
}

pub struct AllowRemoteAccessResponse {
    pub status_code: u16,
    pub message: String,
}

pub struct DashboardResponse {
    pub status_code: u16,
    pub message: String,
}

pub struct GetLinkParams {
    pub code: u16,
}

pub struct GetLinkResponse {
    pub status_code: u16,
    pub link: Option<String>,
}

impl GetLinkResponse {
    /// The answer for a looked-up link: 200 with it, or 404 without.
    pub fn from_lookup(link: Option<String>) -> (r: Self)
        ensures
            r.link == link,
            link is Some ==> r.status_code == 200,
            link is None ==> r.status_code == 404,
    {
        let status_code = if link.is_some() {
            200
        } else {
            404
        };
        GetLinkResponse { status_code, link }
    }
}

pub struct GetLocalIpAddressResponse {
    pub status_code: u16,
    pub ip: Option<String>,
}

impl GetLocalIpAddressResponse {
    /// The answer for a looked-up address: 200 with it, or 404 without.
    pub fn from_address(ip: Option<String>) -> (r: Self)
        ensures
            r.ip == ip,
            ip is Some ==> r.status_code == 200,
            ip is None ==> r.status_code == 404,
    {
        let status_code = if ip.is_some() {
            200
        } else {
            404
        };
        GetLocalIpAddressResponse { status_code, ip }
    }
}

/// The options shown to the user.
pub struct GetConfigResponse {
    pub status_code: u16,
    pub skip_proxy: bool,
    pub override_dns: bool,
    pub enhanced_mode: EnhancedMode,
    pub allow_remote_access: bool,
    pub dashboard: String,
    pub secret: String,
}

impl GetConfigResponse {
    /// The options of a settings snapshot; the secret is the one the running
    /// configuration holds when it could be read, else the stored one.
    pub fn from_settings(settings: &Settings, running_secret: Option<String>) -> (r: Self)
        ensures
            r.status_code == 200,
            r.skip_proxy == settings.skip_proxy,
            r.override_dns == settings.override_dns,
            r.enhanced_mode == settings.enhanced_mode,
            r.allow_remote_access == settings.allow_remote_access,
            r.dashboard@ == settings.dashboard@,
            running_secret matches Some(s) ==> r.secret@ == s@,
            running_secret is None ==> r.secret@ == settings.secret@,
    {
        let secret = match running_secret {
            Some(s) => s,
            None => settings.secret.clone(),
        };
        GetConfigResponse {
            status_code: 200,
            skip_proxy: settings.skip_proxy,
            override_dns: settings.override_dns,
            enhanced_mode: settings.enhanced_mode,
            allow_remote_access: settings.allow_remote_access,
            dashboard: settings.dashboard.clone(),
            secret,
        }
    }
}

} // verus!
