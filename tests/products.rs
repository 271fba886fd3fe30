use appwave::products::{get_launchable_products, product_kind, BuildProduct, ProductType};
use appwave::text::{contains_text, ends_with};

#[test]
fn test_get_launchable_products() {
    let products = vec![
        BuildProduct {
            name: "MyApp.app".to_string(),
            path: "/path/to/MyApp.app".to_string(),
            product_type: ProductType::Application,
            is_launchable: true,
        },
        BuildProduct {
            name: "MyFramework.framework".to_string(),
            path: "/path/to/MyFramework.framework".to_string(),
            product_type: ProductType::Framework,
            is_launchable: false,
        },
        BuildProduct {
            name: "MyTests.xctest".to_string(),
            path: "/path/to/MyTests.xctest".to_string(),
            product_type: ProductType::UnitTest,
            is_launchable: false,
        },
    ];

    let launchable = get_launchable_products(&products);
    assert_eq!(launchable.len(), 1);
    assert_eq!(launchable[0].name, "MyApp.app");
    assert_eq!(launchable[0].product_type, ProductType::Application);
}

#[test]
fn test_get_launchable_products_empty() {
    let products = vec![BuildProduct {
        name: "MyFramework.framework".to_string(),
        path: "/path/to/MyFramework.framework".to_string(),
        product_type: ProductType::Framework,
        is_launchable: false,
    }];

    let launchable = get_launchable_products(&products);
    assert_eq!(launchable.len(), 0);
}

#[test]
fn product_kinds_follow_the_file_name() {
    assert_eq!(product_kind("MyApp.app"), Some((ProductType::Application, true)));
    assert_eq!(product_kind("Kit.framework"), Some((ProductType::Framework, false)));
    assert_eq!(product_kind("libz.a"), Some((ProductType::StaticLibrary, false)));
    assert_eq!(product_kind("libz.dylib"), Some((ProductType::DynamicLibrary, false)));
    assert_eq!(product_kind("Res.bundle"), Some((ProductType::Bundle, false)));
    assert_eq!(product_kind("AppUITests.xctest"), Some((ProductType::UITest, false)));
    assert_eq!(product_kind("AppTests.xctest"), Some((ProductType::UnitTest, false)));
    assert_eq!(product_kind("Widget.appex"), Some((ProductType::AppExtension, false)));
    assert_eq!(product_kind("notes.txt"), None);
    assert!(ends_with("a.app", ".app") && !ends_with("app", ".app"));
    assert!(contains_text("xUITestsy", "UITests") && !contains_text("UITest", "UITests"));
    assert!(contains_text("abc", ""));
}
