use image_server::Catalog;
use image_server::CatalogError;
use image_server::ContentType;

fn entries(list: &[(&str, u64)]) -> Vec<(String, u64)> {
    list.iter().map(|(n, t)| (n.to_string(), *t)).collect()
}

#[test]
fn build_keeps_only_supported_files() {
    let es = entries(&[("unsupported.gif", 100), ("a.png", 200)]);
    let catalog = Catalog::build("images", &es).unwrap();
    assert_eq!(catalog.len(), 1);
    let res = catalog.lookup("a.png").unwrap();
    assert_eq!(res.name, "a.png");
    assert_eq!(res.path, "images/a.png");
    assert_eq!(res.content_type, ContentType::Png);
    assert_eq!(res.last_modified, 200);
    assert!(catalog.lookup("unsupported.gif").is_none());
}

#[test]
fn build_rejects_an_empty_listing() {
    let es = entries(&[]);
    assert_eq!(
        Catalog::build("images", &es).err(),
        Some(CatalogError::NoEligibleResources)
    );
}

#[test]
fn build_rejects_a_listing_with_nothing_eligible() {
    let es = entries(&[("readme.txt", 1), ("clip.gif", 2), ("noext", 3)]);
    assert_eq!(
        Catalog::build("images", &es).err(),
        Some(CatalogError::NoEligibleResources)
    );
}

#[test]
fn build_keeps_listing_order_and_metadata() {
    let es = entries(&[("b.jpg", 10), ("notes.txt", 11), ("a.webp", 12), ("c.JPEG", 13)]);
    let catalog = Catalog::build("pics", &es).unwrap();
    assert_eq!(catalog.len(), 3);
    assert_eq!(catalog.get(0).name, "b.jpg");
    assert_eq!(catalog.get(0).content_type, ContentType::Jpeg);
    assert_eq!(catalog.get(0).last_modified, 10);
    assert_eq!(catalog.get(1).name, "a.webp");
    assert_eq!(catalog.get(1).content_type, ContentType::Webp);
    assert_eq!(catalog.get(2).name, "c.JPEG");
    assert_eq!(catalog.get(2).content_type, ContentType::Jpeg);
    assert_eq!(catalog.get(2).path, "pics/c.JPEG");
}

#[test]
fn lookup_misses_uncataloged_names() {
    let es = entries(&[("a.png", 1), ("b.jpg", 2)]);
    let catalog = Catalog::build("images", &es).unwrap();
    assert!(catalog.lookup("c.png").is_none());
    assert!(catalog.lookup("a.PNG").is_none());
    assert!(catalog.lookup("").is_none());
}

#[test]
fn pick_random_returns_cataloged_resources() {
    let es = entries(&[("a.png", 1), ("b.jpg", 2), ("c.webp", 3)]);
    let catalog = Catalog::build("images", &es).unwrap();
    for _ in 0..100 {
        let res = catalog.pick_random();
        assert!(catalog.lookup(&res.name).is_some());
    }
}

#[test]
fn pick_random_is_roughly_uniform() {
    let names = ["a.png", "b.jpg", "c.webp", "d.jpeg", "e.png"];
    let es = entries(&names.iter().map(|n| (*n, 1u64)).collect::<Vec<_>>());
    let catalog = Catalog::build("images", &es).unwrap();
    let mut counts = [0u32; 5];
    for _ in 0..10000 {
        let res = catalog.pick_random();
        let idx = names.iter().position(|n| *n == res.name).unwrap();
        counts[idx] += 1;
    }
    // each name is expected 2000 times out of 10000; allow a generous margin
    for c in counts.iter() {
        assert!(1600 <= *c && *c <= 2400, "selection counts not close to uniform: {:?}", counts);
    }
}
