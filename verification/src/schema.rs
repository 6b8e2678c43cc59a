//! The typed tree of an XKB rule document.

use vstd::prelude::*;

verus! {

/// The name and description block that layouts and variants share.
#[derive(Debug, Clone, PartialEq, Eq)]
pub struct ConfigItem {
    pub name: String,
    pub short_description: Option<String>,
    pub description: String,
}

/// A variant of a keyboard layout.
#[derive(Debug, Clone, PartialEq, Eq)]
pub struct KeyboardVariant {
    pub config_item: ConfigItem,
}

/// The variant list element of a layout. The element may be there and hold
/// no variant at all, which `variant` keeps apart from a list of variants.
#[derive(Debug, Clone, PartialEq, Eq)]
pub struct VariantList {
    pub variant: Option<Vec<KeyboardVariant>>,
}

/// A keyboard layout: a name, a description and, where the document declares
/// one, a list of variants.
#[derive(Debug, Clone, PartialEq, Eq)]
pub struct KeyboardLayout {
    pub config_item: ConfigItem,
    pub variant_list: Option<VariantList>,
}

/// A list of keyboard layouts, in document order.
#[derive(Debug, Clone, PartialEq, Eq)]
pub struct LayoutList {
    pub layout: Vec<KeyboardLayout>,
}

/// A catalog of keyboard layouts: what one rule document declares, or what
/// several of them declare together.
#[derive(Debug, Clone, PartialEq, Eq)]
pub struct KeyboardLayouts {
    pub layout_list: LayoutList,
}

impl KeyboardVariant {
    /// The name of the variant, as a sequence of characters.
    pub open spec fn spec_name(&self) -> Seq<char> {
        self.config_item.name@
    }

    /// The description of the variant, as a sequence of characters.
    pub open spec fn spec_description(&self) -> Seq<char> {
        self.config_item.description@
    }

    /// The name of this variant of a keyboard layout.
    pub fn name(&self) -> (r: &str)
        ensures
            r@ == self.spec_name(),
    {
        self.config_item.name.as_str()
    }

    /// A description of this variant of a keyboard layout.
    pub fn description(&self) -> (r: &str)
        ensures
            r@ == self.spec_description(),
    {
        self.config_item.description.as_str()
    }
}

impl KeyboardLayout {
    /// The name of the layout, as a sequence of characters.
    pub open spec fn spec_name(&self) -> Seq<char> {
        self.config_item.name@
    }

    /// The description of the layout, as a sequence of characters.
    pub open spec fn spec_description(&self) -> Seq<char> {
        self.config_item.description@
    }

    /// The variants of the layout in document order, or `None` where the
    /// layout has no variant list, or a variant list that holds no variant:
    /// one whose sequence of variants is absent, or present and empty.
    pub open spec fn spec_variants(&self) -> Option<Seq<KeyboardVariant>> {
        match self.variant_list {
            Some(list) => match list.variant {
                Some(variants) => if variants@.len() == 0 {
                    None
                } else {
                    Some(variants@)
                },
                None => None,
            },
            None => None,
        }
    }

    /// The name of the keyboard layout.
    pub fn name(&self) -> (r: &str)
        ensures
            r@ == self.spec_name(),
    {
        self.config_item.name.as_str()
    }

    /// A description of the layout.
    pub fn description(&self) -> (r: &str)
        ensures
            r@ == self.spec_description(),
    {
        self.config_item.description.as_str()
    }

    /// The variants of the layout, if it has at least one variant. A layout
    /// without a variant list and a layout whose list holds no variant both
    /// give `None`: a sequence that comes back is never empty.
    pub fn variants(&self) -> (r: Option<&Vec<KeyboardVariant>>)
        ensures
            match r {
                Some(variants) => self.spec_variants() == Some(variants@) && variants@.len() >= 1,
                None => self.spec_variants() is None,
            },
    {
        match &self.variant_list {
            Some(list) => match &list.variant {
                Some(variants) => if variants.len() == 0 {
                    None
                } else {
                    Some(variants)
                },
                None => None,
            },
            None => None,
        }
    }
}

impl View for LayoutList {
    type V = Seq<KeyboardLayout>;

    /// The layouts of the list, in order.
    open spec fn view(&self) -> Seq<KeyboardLayout> {
        self.layout@
    }
}

impl View for KeyboardLayouts {
    type V = Seq<KeyboardLayout>;

    /// The layouts of the catalog, in order.
    open spec fn view(&self) -> Seq<KeyboardLayout> {
        self.layout_list@
    }
}

impl KeyboardLayouts {
    /// The layouts of the layout list.
    pub fn layouts(&self) -> (r: &[KeyboardLayout])
        ensures
            r@ == self@,
    {
        self.layout_list.layout.as_slice()
    }

    /// The layouts of the layout list, for editing in place. The catalog
    /// holds afterwards what the caller left in the slice.
    pub fn layouts_mut(&mut self) -> (r: &mut [KeyboardLayout])
        ensures
            r@ == old(self)@,
            final(self)@ == final(r)@,
    {
        self.layout_list.layout.as_mut_slice()
    }
}

} // verus!
