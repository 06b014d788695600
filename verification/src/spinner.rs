//! Which icon a loading spinner draws.
//!
//! A spinner given an icon of its own draws that icon. Every other spinner,
//! including those that controls create for their loading states, draws the
//! app-wide default set with [`set_default_icon`], and [`IconName::Loader`]
//! when the app never set one.

use vstd::prelude::*;

verus! {

/// The icons of the kit that this crate names.
#[derive(Clone, Copy, Debug, PartialEq, Eq, Structural)]
pub enum IconName {
    /// The default loading indicator.
    Loader,
}

impl IconName {
    /// The asset path of the icon's SVG.
    pub open spec fn spec_path(self) -> Seq<char> {
        match self {
            IconName::Loader => "icons/loader.svg"@,
        }
    }

    /// The asset path of the icon's SVG.
    pub fn path(self) -> (p: String)
        ensures
            p@ == self.spec_path(),
    {
        match self {
            IconName::Loader => "icons/loader.svg".to_owned(),
        }
    }
}

/// An icon, identified by the asset path of its SVG.
#[derive(Clone, Debug)]
pub struct Icon {
    path: String,
}

impl View for Icon {
    type V = Seq<char>;

    closed spec fn view(&self) -> Seq<char> {
        self.path@
    }
}

impl Icon {
    /// The icon of the given name.
    pub fn new(name: IconName) -> (icon: Icon)
        ensures
            icon@ == name.spec_path(),
    {
        Icon { path: name.path() }
    }

    /// The icon drawn from the SVG at `path`.
    pub fn from_path(path: String) -> (icon: Icon)
        ensures
            icon@ == path@,
    {
        Icon { path }
    }

    /// The asset path of the icon's SVG.
    pub fn path(&self) -> (p: &str)
        ensures
            p@ == self@,
    {
        self.path.as_str()
    }
}

/// The app-wide default spinner icon: unset until [`set_default_icon`] sets it.
#[derive(Debug)]
pub struct DefaultSpinnerIcon {
    icon: Option<Icon>,
}

impl View for DefaultSpinnerIcon {
    type V = Option<Seq<char>>;

    closed spec fn view(&self) -> Option<Seq<char>> {
        match self.icon {
            Some(icon) => Some(icon@),
            None => None,
        }
    }
}

impl DefaultSpinnerIcon {
    /// The slot of an app that has not set a default spinner icon.
    pub fn unset() -> (d: DefaultSpinnerIcon)
        ensures
            d@ == None::<Seq<char>>,
    {
        DefaultSpinnerIcon { icon: None }
    }

    /// The default icon the app set, if it set one.
    pub fn get(&self) -> (icon: Option<&Icon>)
        ensures
            match icon {
                Some(i) => self@ == Some(i@),
                None => self@ == None::<Seq<char>>,
            },
    {
        match &self.icon {
            Some(i) => Some(i),
            None => None,
        }
    }
}

/// Makes `icon` the app-wide default spinner icon, replacing any earlier one.
pub fn set_default_icon(icon: Icon, defaults: &mut DefaultSpinnerIcon)
    ensures
        final(defaults)@ == Some(icon@),
{
    defaults.icon = Some(icon);
}

/// The path of the icon that a spinner draws, given the icon set on the
/// spinner itself and the app-wide default.
pub open spec fn spec_spinner_icon(own: Option<Seq<char>>, default: Option<Seq<char>>) -> Seq<char> {
    match own {
        Some(path) => path,
        None => match default {
            Some(path) => path,
            None => IconName::Loader.spec_path(),
        },
    }
}

/// The icon that a spinner draws: its own icon if it has one, else the app-wide
/// default, else [`IconName::Loader`].
pub fn spinner_icon(own: Option<Icon>, defaults: &DefaultSpinnerIcon) -> (icon: Icon)
    ensures
        icon@ == spec_spinner_icon(
            match own {
                Some(i) => Some(i@),
                None => None,
            },
            defaults@,
        ),
{
    match own {
        Some(icon) => icon,
        None => match &defaults.icon {
            Some(d) => Icon { path: d.path.clone() },
            None => Icon::new(IconName::Loader),
        },
    }
}

/// A spinner without an icon of its own draws the last icon the app set as the
/// default, whatever was set before it.
pub proof fn law_default_icon_reads_back(icon: Seq<char>)
    ensures
        spec_spinner_icon(None, Some(icon)) == icon,
{
}

/// A spinner's own icon wins over any app-wide default.
pub proof fn law_own_icon_wins(own: Seq<char>, default: Option<Seq<char>>)
    ensures
        spec_spinner_icon(Some(own), default) == own,
{
}

/// Until the app sets a default, a spinner without an icon of its own draws
/// [`IconName::Loader`].
pub proof fn law_unset_default_draws_loader()
    ensures
        spec_spinner_icon(None, None) == IconName::Loader.spec_path(),
{
}

} // verus!
