//! The registry's record of one application, and the view of it that is
//! handed to callers and carried by events.

use crate::text::{decimal, decimal_string};
use vstd::prelude::*;
use vstd::string::*;

verus! {

/// Where an application stands in its installation.
#[derive(Clone, Copy, Debug, PartialEq, Eq, Structural)]
pub enum AppsInstallState {
    Pending,
    Installing,
    Installed,
}

/// Where an application stands with respect to updates.
#[derive(Clone, Copy, Debug, PartialEq, Eq, Structural)]
pub enum AppsUpdateState {
    Idle,
    Available,
    Updating,
    Pending,
}

/// The registry's record of one installed, or installing, application.
#[derive(Debug, PartialEq, Eq)]
pub struct AppsItem {
    name: String,
    update_url: String,
    manifest_url: String,
    version: String,
    manifest_hash: String,
    install_state: AppsInstallState,
    update_state: AppsUpdateState,
    is_pwa: bool,
    removable: bool,
}

/// Mathematical value of an [`AppsItem`].
pub struct AppsItemView {
    pub name: Seq<char>,
    pub update_url: Seq<char>,
    pub manifest_url: Seq<char>,
    pub version: Seq<char>,
    pub manifest_hash: Seq<char>,
    pub install_state: AppsInstallState,
    pub update_state: AppsUpdateState,
    pub is_pwa: bool,
    pub removable: bool,
}

impl View for AppsItem {
    type V = AppsItemView;

    closed spec fn view(&self) -> AppsItemView {
        AppsItemView {
            name: self.name@,
            update_url: self.update_url@,
            manifest_url: self.manifest_url@,
            version: self.version@,
            manifest_hash: self.manifest_hash@,
            install_state: self.install_state,
            update_state: self.update_state,
            is_pwa: self.is_pwa,
            removable: self.removable,
        }
    }
}

/// The part of a local URL that names the port: nothing for port 80, else a
/// colon and the port in decimal.
pub open spec fn port_suffix(vhost_port: u16) -> Seq<char> {
    if vhost_port == 80 {
        Seq::<char>::empty()
    } else {
        ":"@ + decimal(vhost_port as nat)
    }
}

/// The local URL under which the manifest of the packaged application `name`
/// is served.
pub open spec fn manifest_url_of(name: Seq<char>, vhost_port: u16) -> Seq<char> {
    "http://"@ + name + ".localhost"@ + port_suffix(vhost_port) + "/manifest.webmanifest"@
}

/// The local URL under which the cached manifest of the progressive web app
/// `name` is served.
pub open spec fn pwa_manifest_url_of(name: Seq<char>, vhost_port: u16) -> Seq<char> {
    "http://cached.localhost"@ + port_suffix(vhost_port) + "/"@ + name
        + "/manifest.webmanifest"@
}

/// The record that [`AppsItem::default`] makes.
pub open spec fn default_item(name: Seq<char>, vhost_port: u16) -> AppsItemView {
    AppsItemView {
        name,
        update_url: Seq::<char>::empty(),
        manifest_url: manifest_url_of(name, vhost_port),
        version: Seq::<char>::empty(),
        manifest_hash: Seq::<char>::empty(),
        install_state: AppsInstallState::Installed,
        update_state: AppsUpdateState::Idle,
        is_pwa: false,
        removable: true,
    }
}

/// The record that [`AppsItem::default_pwa`] makes.
pub open spec fn default_pwa_item(name: Seq<char>, vhost_port: u16) -> AppsItemView {
    AppsItemView {
        name,
        update_url: Seq::<char>::empty(),
        manifest_url: pwa_manifest_url_of(name, vhost_port),
        version: Seq::<char>::empty(),
        manifest_hash: Seq::<char>::empty(),
        install_state: AppsInstallState::Installed,
        update_state: AppsUpdateState::Idle,
        is_pwa: true,
        removable: true,
    }
}

fn port_suffix_string(vhost_port: u16) -> (s: String)
    ensures
        s@ == port_suffix(vhost_port),
{
    if vhost_port == 80 {
        String::new()
    } else {
        let mut s = String::from_str(":");
        let digits = decimal_string(vhost_port as u64);
        s.append(digits.as_str());
        s
    }
}

impl Clone for AppsItem {
    fn clone(&self) -> (copy: Self)
        ensures
            copy@ == self@,
    {
        AppsItem {
            name: self.name.clone(),
            update_url: self.update_url.clone(),
            manifest_url: self.manifest_url.clone(),
            version: self.version.clone(),
            manifest_hash: self.manifest_hash.clone(),
            install_state: self.install_state,
            update_state: self.update_state,
            is_pwa: self.is_pwa,
            removable: self.removable,
        }
    }
}

impl AppsItem {
    /// A record for the packaged application `name`: installed, idle,
    /// removable, with no update URL, version or manifest hash yet.
    pub fn default(name: &str, vhost_port: u16) -> (item: Self)
        ensures
            item@ == default_item(name@, vhost_port),
    {
        let mut manifest_url = String::from_str("http://");
        manifest_url.append(name);
        manifest_url.append(".localhost");
        let suffix = port_suffix_string(vhost_port);
        manifest_url.append(suffix.as_str());
        manifest_url.append("/manifest.webmanifest");
        AppsItem {
            name: String::from_str(name),
            update_url: String::new(),
            manifest_url,
            version: String::new(),
            manifest_hash: String::new(),
            install_state: AppsInstallState::Installed,
            update_state: AppsUpdateState::Idle,
            is_pwa: false,
            removable: true,
        }
    }

    /// A record for the progressive web app `name`, served from the cache.
    pub fn default_pwa(name: &str, vhost_port: u16) -> (item: Self)
        ensures
            item@ == default_pwa_item(name@, vhost_port),
    {
        let mut manifest_url = String::from_str("http://cached.localhost");
        let suffix = port_suffix_string(vhost_port);
        manifest_url.append(suffix.as_str());
        manifest_url.append("/");
        manifest_url.append(name);
        manifest_url.append("/manifest.webmanifest");
        AppsItem {
            name: String::from_str(name),
            update_url: String::new(),
            manifest_url,
            version: String::new(),
            manifest_hash: String::new(),
            install_state: AppsInstallState::Installed,
            update_state: AppsUpdateState::Idle,
            is_pwa: true,
            removable: true,
        }
    }

    pub fn get_name(&self) -> (name: String)
        ensures
            name@ == self@.name,
    {
        self.name.clone()
    }

    pub fn get_update_url(&self) -> (url: String)
        ensures
            url@ == self@.update_url,
    {
        self.update_url.clone()
    }

    pub fn get_manifest_url(&self) -> (url: String)
        ensures
            url@ == self@.manifest_url,
    {
        self.manifest_url.clone()
    }

    pub fn get_version(&self) -> (version: String)
        ensures
            version@ == self@.version,
    {
        self.version.clone()
    }

    pub fn get_manifest_hash(&self) -> (hash: String)
        ensures
            hash@ == self@.manifest_hash,
    {
        self.manifest_hash.clone()
    }

    pub fn get_install_state(&self) -> (state: AppsInstallState)
        ensures
            state == self@.install_state,
    {
        self.install_state
    }

    pub fn get_update_state(&self) -> (state: AppsUpdateState)
        ensures
            state == self@.update_state,
    {
        self.update_state
    }

    pub fn is_pwa(&self) -> (yes: bool)
        ensures
            yes == self@.is_pwa,
    {
        self.is_pwa
    }

    pub fn is_removable(&self) -> (yes: bool)
        ensures
            yes == self@.removable,
    {
        self.removable
    }

    /// Whether this record carries the update URL `url`.
    pub fn has_update_url(&self, url: &str) -> (yes: bool)
        ensures
            yes == (self@.update_url == url@),
    {
        crate::text::same_text(self.update_url.as_str(), url)
    }

    /// Whether this record carries the name `name`.
    pub fn has_name(&self, name: &str) -> (yes: bool)
        ensures
            yes == (self@.name == name@),
    {
        crate::text::same_text(self.name.as_str(), name)
    }

    pub fn set_update_url(&mut self, url: &str)
        ensures
            final(self)@ == (AppsItemView { update_url: url@, ..old(self)@ }),
    {
        self.update_url = String::from_str(url);
    }

    pub fn set_version(&mut self, version: &str)
        ensures
            final(self)@ == (AppsItemView { version: version@, ..old(self)@ }),
    {
        self.version = String::from_str(version);
    }

    pub fn set_manifest_hash(&mut self, hash: &str)
        ensures
            final(self)@ == (AppsItemView { manifest_hash: hash@, ..old(self)@ }),
    {
        self.manifest_hash = String::from_str(hash);
    }

    pub fn set_install_state(&mut self, state: AppsInstallState)
        ensures
            final(self)@ == (AppsItemView { install_state: state, ..old(self)@ }),
    {
        self.install_state = state;
    }

    pub fn set_update_state(&mut self, state: AppsUpdateState)
        ensures
            final(self)@ == (AppsItemView { update_state: state, ..old(self)@ }),
    {
        self.update_state = state;
    }
}

/// What callers and events see of an application.
#[derive(Debug, PartialEq, Eq)]
pub struct AppsObject {
    pub name: String,
    pub install_state: AppsInstallState,
    pub manifest_url: String,
    pub removable: bool,
    pub update_state: AppsUpdateState,
    pub update_url: String,
    pub allowed_auto_download: bool,
}

/// Mathematical value of an [`AppsObject`].
pub struct AppsObjectView {
    pub name: Seq<char>,
    pub install_state: AppsInstallState,
    pub manifest_url: Seq<char>,
    pub removable: bool,
    pub update_state: AppsUpdateState,
    pub update_url: Seq<char>,
    pub allowed_auto_download: bool,
}

impl View for AppsObject {
    type V = AppsObjectView;

    open spec fn view(&self) -> AppsObjectView {
        AppsObjectView {
            name: self.name@,
            install_state: self.install_state,
            manifest_url: self.manifest_url@,
            removable: self.removable,
            update_state: self.update_state,
            update_url: self.update_url@,
            allowed_auto_download: self.allowed_auto_download,
        }
    }
}

/// The view that callers get of the record `item`: its fields, with
/// automatic download not allowed.
pub open spec fn object_of(item: AppsItemView) -> AppsObjectView {
    AppsObjectView {
        name: item.name,
        install_state: item.install_state,
        manifest_url: item.manifest_url,
        removable: item.removable,
        update_state: item.update_state,
        update_url: item.update_url,
        allowed_auto_download: false,
    }
}

impl Clone for AppsObject {
    fn clone(&self) -> (copy: Self)
        ensures
            copy@ == self@,
    {
        AppsObject {
            name: self.name.clone(),
            install_state: self.install_state,
            manifest_url: self.manifest_url.clone(),
            removable: self.removable,
            update_state: self.update_state,
            update_url: self.update_url.clone(),
            allowed_auto_download: self.allowed_auto_download,
        }
    }
}

impl From<&AppsItem> for AppsObject {
    fn from(item: &AppsItem) -> (object: AppsObject)
        ensures
            object@ == object_of(item@),
    {
        AppsObject {
            name: item.name.clone(),
            install_state: item.install_state,
            manifest_url: item.manifest_url.clone(),
            removable: item.removable,
            update_state: item.update_state,
            update_url: item.update_url.clone(),
            allowed_auto_download: false,
        }
    }
}

impl vstd::std_specs::convert::FromSpecImpl<&AppsItem> for AppsObject {
    open spec fn obeys_from_spec() -> bool {
        true
    }

    closed spec fn from_spec(item: &AppsItem) -> AppsObject {
        AppsObject {
            name: item.name,
            install_state: item.install_state,
            manifest_url: item.manifest_url,
            removable: item.removable,
            update_state: item.update_state,
            update_url: item.update_url,
            allowed_auto_download: false,
        }
    }
}

} // verus!
