//! Build products found in a build directory: their kind, told by the file
//! name, and which of them can be launched.
use vstd::prelude::*;
use crate::text::{ends_with, contains_text, has_suffix, has_infix};

verus! {

/// The kind of a build product.
#[derive(Clone, Copy, Debug, PartialEq, Eq, Structural)]
pub enum ProductType {
    Application,
    Framework,
    StaticLibrary,
    DynamicLibrary,
    Bundle,
    UnitTest,
    UITest,
    AppExtension,
    Unknown,
}

/// One build product.
#[derive(Clone, Debug)]
pub struct BuildProduct {
    pub name: String,
    pub path: String,
    pub product_type: ProductType,
    pub is_launchable: bool,
}

/// The kind of a product named `name`, and whether it can be launched;
/// `None` for a file that is no product.
pub open spec fn product_kind_of(name: Seq<char>) -> Option<(ProductType, bool)> {
    if has_suffix(name, ".app"@) {
        Some((ProductType::Application, true))
    } else if has_suffix(name, ".framework"@) {
        Some((ProductType::Framework, false))
    } else if has_suffix(name, ".a"@) {
        Some((ProductType::StaticLibrary, false))
    } else if has_suffix(name, ".dylib"@) {
        Some((ProductType::DynamicLibrary, false))
    } else if has_suffix(name, ".bundle"@) {
        Some((ProductType::Bundle, false))
    } else if has_suffix(name, ".xctest"@) {
        if has_infix(name, "UITests"@) {
            Some((ProductType::UITest, false))
        } else {
            Some((ProductType::UnitTest, false))
        }
    } else if has_suffix(name, ".appex"@) {
        Some((ProductType::AppExtension, false))
    } else {
        None
    }
}

/// The kind of a product named `file_name`, and whether it can be launched.
pub fn product_kind(file_name: &str) -> (r: Option<(ProductType, bool)>)
    ensures
        r == product_kind_of(file_name@),
{
    if ends_with(file_name, ".app") {
        Some((ProductType::Application, true))
    } else if ends_with(file_name, ".framework") {
        Some((ProductType::Framework, false))
    } else if ends_with(file_name, ".a") {
        Some((ProductType::StaticLibrary, false))
    } else if ends_with(file_name, ".dylib") {
        Some((ProductType::DynamicLibrary, false))
    } else if ends_with(file_name, ".bundle") {
        Some((ProductType::Bundle, false))
    } else if ends_with(file_name, ".xctest") {
        if contains_text(file_name, "UITests") {
            Some((ProductType::UITest, false))
        } else {
            Some((ProductType::UnitTest, false))
        }
    } else if ends_with(file_name, ".appex") {
        Some((ProductType::AppExtension, false))
    } else {
        None
    }
}

impl BuildProduct {
    /// A copy of this product.
    pub fn duplicate(&self) -> (r: BuildProduct)
        ensures
            r == *self,
    {
        BuildProduct {
            name: self.name.clone(),
            path: self.path.clone(),
            product_type: self.product_type,
            is_launchable: self.is_launchable,
        }
    }
}

/// The launchable products of `s`, in order.
pub open spec fn launchable(s: Seq<BuildProduct>) -> Seq<BuildProduct> {
    s.filter(|p: BuildProduct| p.is_launchable)
}

/// The launchable products among `products`, in their order.
pub fn get_launchable_products(products: &[BuildProduct]) -> (r: Vec<BuildProduct>)
    ensures
        r@ == launchable(products@),
{
    let mut out: Vec<BuildProduct> = Vec::new();
    let mut i: usize = 0;
    while i < products.len()
        invariant
            i <= products@.len(),
            out@ == launchable(products@.take(i as int)),
        decreases products@.len() - i,
    {
        proof {
            products@.take(i as int).lemma_filter_push(products@[i as int], |p: BuildProduct| p.is_launchable);
        }
        if products[i].is_launchable {
            out.push(products[i].duplicate());
        }
        proof {
            assert(products@.take(i as int).push(products@[i as int]) =~= products@.take(i as int + 1));
        }
        i = i + 1;
    }
    assert(products@.take(i as int) =~= products@);
    out
}

} // verus!
