//! The two documents the engine reads: the manifest of an application and
//! the update manifest that announces a package.

use crate::text::same_text;
use vstd::prelude::*;
use vstd::string::*;

verus! {

/// The views of a list of strings.
pub open spec fn texts(list: Seq<String>) -> Seq<Seq<char>> {
    list.map_values(|s: String| s@)
}

/// One icon of a manifest.
#[derive(Debug, PartialEq, Eq)]
pub struct Icons {
    pub src: String,
    pub sizes: String,
    pub kind: String,
}

/// Mathematical value of an [`Icons`].
pub struct IconsView {
    pub src: Seq<char>,
    pub sizes: Seq<char>,
    pub kind: Seq<char>,
}

impl View for Icons {
    type V = IconsView;

    open spec fn view(&self) -> IconsView {
        IconsView { src: self.src@, sizes: self.sizes@, kind: self.kind@ }
    }
}

impl Clone for Icons {
    fn clone(&self) -> (copy: Self)
        ensures
            copy@ == self@,
    {
        Icons { src: self.src.clone(), sizes: self.sizes.clone(), kind: self.kind.clone() }
    }
}

impl Icons {
    pub fn get_src(&self) -> (src: String)
        ensures
            src@ == self@.src,
    {
        self.src.clone()
    }

    pub fn set_src(&mut self, src: &str)
        ensures
            final(self)@ == (IconsView { src: src@, ..old(self)@ }),
    {
        self.src = String::from_str(src);
    }
}

/// The views of a list of icons.
pub open spec fn icons_view(list: Seq<Icons>) -> Seq<IconsView> {
    list.map_values(|icon: Icons| icon@)
}

/// The manifest of an application.
#[derive(Debug, PartialEq, Eq)]
pub struct Manifest {
    pub name: String,
    pub version: String,
    pub start_url: String,
    /// The icons, where the document has an `icons` member.
    pub icons: Option<Vec<Icons>>,
    pub role: String,
    pub permissions: Vec<String>,
}

/// Mathematical value of a [`Manifest`].
pub struct ManifestView {
    pub name: Seq<char>,
    pub version: Seq<char>,
    pub start_url: Seq<char>,
    pub icons: Option<Seq<IconsView>>,
    pub role: Seq<char>,
    pub permissions: Seq<Seq<char>>,
}

impl View for Manifest {
    type V = ManifestView;

    open spec fn view(&self) -> ManifestView {
        ManifestView {
            name: self.name@,
            version: self.version@,
            start_url: self.start_url@,
            icons: match self.icons {
                Some(list) => Some(icons_view(list@)),
                None => None,
            },
            role: self.role@,
            permissions: texts(self.permissions@),
        }
    }
}

fn clone_texts(list: &Vec<String>) -> (copy: Vec<String>)
    ensures
        texts(copy@) == texts(list@),
{
    let mut copy: Vec<String> = Vec::new();
    let mut i: usize = 0;
    while i < list.len()
        invariant
            i <= list.len(),
            copy@.len() == i,
            forall|j: int| 0 <= j < i ==> copy@[j]@ == list@[j]@,
        decreases list.len() - i,
    {
        copy.push(list[i].clone());
        i = i + 1;
    }
    assert(texts(copy@) =~= texts(list@));
    copy
}

/// A copy of the icons in `list`.
pub fn clone_icons(list: &Vec<Icons>) -> (copy: Vec<Icons>)
    ensures
        icons_view(copy@) == icons_view(list@),
{
    let mut copy: Vec<Icons> = Vec::new();
    let mut i: usize = 0;
    while i < list.len()
        invariant
            i <= list.len(),
            copy@.len() == i,
            forall|j: int| 0 <= j < i ==> copy@[j]@ == list@[j]@,
        decreases list.len() - i,
    {
        copy.push(list[i].clone());
        i = i + 1;
    }
    assert(icons_view(copy@) =~= icons_view(list@));
    copy
}

impl Clone for Manifest {
    fn clone(&self) -> (copy: Self)
        ensures
            copy@ == self@,
    {
        let icons = match &self.icons {
            Some(list) => Some(clone_icons(list)),
            None => None,
        };
        Manifest {
            name: self.name.clone(),
            version: self.version.clone(),
            start_url: self.start_url.clone(),
            icons,
            role: self.role.clone(),
            permissions: clone_texts(&self.permissions),
        }
    }
}

impl Manifest {
    pub fn get_name(&self) -> (name: String)
        ensures
            name@ == self@.name,
    {
        self.name.clone()
    }

    pub fn get_version(&self) -> (version: String)
        ensures
            version@ == self@.version,
    {
        self.version.clone()
    }

    pub fn get_start_url(&self) -> (url: String)
        ensures
            url@ == self@.start_url,
    {
        self.start_url.clone()
    }

    /// The icons, where the document has an `icons` member.
    pub fn get_icons(&self) -> (icons: Option<Vec<Icons>>)
        ensures
            match icons {
                Some(list) => self@.icons == Some(icons_view(list@)),
                None => self@.icons is None,
            },
    {
        match &self.icons {
            Some(list) => Some(clone_icons(list)),
            None => None,
        }
    }

    pub fn set_icons(&mut self, icons: Vec<Icons>)
        ensures
            final(self)@ == (ManifestView { icons: Some(icons_view(icons@)), ..old(self)@ }),
    {
        self.icons = Some(icons);
    }

    pub fn set_start_url(&mut self, url: &str)
        ensures
            final(self)@ == (ManifestView { start_url: url@, ..old(self)@ }),
    {
        self.start_url = String::from_str(url);
    }
}

/// The update manifest: where the package is, how large it is, and the
/// fields that the manifest inside the package must repeat.
#[derive(Debug, PartialEq, Eq)]
pub struct UpdateManifest {
    pub name: String,
    pub version: String,
    pub package_path: String,
    pub packaged_size: u64,
    pub role: String,
    pub permissions: Vec<String>,
}

/// Mathematical value of an [`UpdateManifest`].
pub struct UpdateManifestView {
    pub name: Seq<char>,
    pub version: Seq<char>,
    pub package_path: Seq<char>,
    pub packaged_size: u64,
    pub role: Seq<char>,
    pub permissions: Seq<Seq<char>>,
}

impl View for UpdateManifest {
    type V = UpdateManifestView;

    open spec fn view(&self) -> UpdateManifestView {
        UpdateManifestView {
            name: self.name@,
            version: self.version@,
            package_path: self.package_path@,
            packaged_size: self.packaged_size,
            role: self.role@,
            permissions: texts(self.permissions@),
        }
    }
}

impl Clone for UpdateManifest {
    fn clone(&self) -> (copy: Self)
        ensures
            copy@ == self@,
    {
        UpdateManifest {
            name: self.name.clone(),
            version: self.version.clone(),
            package_path: self.package_path.clone(),
            packaged_size: self.packaged_size,
            role: self.role.clone(),
            permissions: clone_texts(&self.permissions),
        }
    }
}

/// Every entry of `a` occurs in `b`.
pub open spec fn included(a: Seq<Seq<char>>, b: Seq<Seq<char>>) -> bool {
    forall|i: int| 0 <= i < a.len() ==> b.contains(#[trigger] a[i])
}

/// The update manifest and the manifest inside the package describe the same
/// application: same name, version and role, and the same permissions in
/// any order.
pub open spec fn manifests_agree(update: UpdateManifestView, manifest: ManifestView) -> bool {
    &&& update.name == manifest.name
    &&& update.version == manifest.version
    &&& update.role == manifest.role
    &&& included(update.permissions, manifest.permissions)
    &&& included(manifest.permissions, update.permissions)
}

fn contains_text(list: &Vec<String>, text: &str) -> (found: bool)
    ensures
        found == texts(list@).contains(text@),
{
    let mut i: usize = 0;
    while i < list.len()
        invariant
            i <= list.len(),
            forall|j: int| 0 <= j < i ==> texts(list@)[j] != text@,
        decreases list.len() - i,
    {
        if same_text(list[i].as_str(), text) {
            assert(texts(list@)[i as int] == text@);
            return true;
        }
        i = i + 1;
    }
    false
}

fn includes(a: &Vec<String>, b: &Vec<String>) -> (yes: bool)
    ensures
        yes == included(texts(a@), texts(b@)),
{
    let mut i: usize = 0;
    while i < a.len()
        invariant
            i <= a.len(),
            forall|j: int| 0 <= j < i ==> texts(b@).contains(#[trigger] texts(a@)[j]),
        decreases a.len() - i,
    {
        if !contains_text(b, a[i].as_str()) {
            assert(texts(a@)[i as int] == a@[i as int]@);
            return false;
        }
        i = i + 1;
    }
    true
}

/// Cross-checks the update manifest against the manifest found inside the
/// package.
pub fn compare_manifests(update_manifest: &UpdateManifest, manifest: &Manifest) -> (agree: bool)
    ensures
        agree == manifests_agree(update_manifest@, manifest@),
{
    same_text(update_manifest.name.as_str(), manifest.name.as_str())
        && same_text(update_manifest.version.as_str(), manifest.version.as_str())
        && same_text(update_manifest.role.as_str(), manifest.role.as_str())
        && includes(&update_manifest.permissions, &manifest.permissions)
        && includes(&manifest.permissions, &update_manifest.permissions)
}

} // verus!
