use minecraft_operator_core::api::{Checksum, Datapack, File, VanillaTweak};
use minecraft_operator_core::datapack::{DatapackPlan, dedup_tweaks, plan_datapack};
use minecraft_operator_core::resolver::ResolutionError;

fn tweak(category: &str, name: &str) -> VanillaTweak {
    VanillaTweak { category: category.to_string(), name: name.to_string() }
}

#[test]
fn direct_file_bypasses_the_composer() {
    let d = Datapack {
        vanilla_tweaks: None,
        file: Some(File {
            url: "https://packs.example/p.zip".to_string(),
            checksum: Some(Checksum {
                md5: None,
                sha1: None,
                sha256: Some(
                    "9f86d081884c7d659a2feaa0c55ad015a3bf4f1b2b0b822cd15d6c15b0f00a08".to_string(),
                ),
            }),
        }),
    };
    match plan_datapack(&d).unwrap() {
        DatapackPlan::Direct(f) => assert_eq!(f.url, "https://packs.example/p.zip"),
        DatapackPlan::Compose(_) => panic!("a direct file must not reach the composer"),
    }
}

#[test]
fn selections_are_deduplicated_in_order() {
    let d = Datapack {
        vanilla_tweaks: Some(vec![
            tweak("survival", "graves"),
            tweak("items", "armored elytra"),
            tweak("survival", "graves"),
            tweak("survival", "multiplayer sleep"),
            tweak("items", "armored elytra"),
        ]),
        file: None,
    };
    match plan_datapack(&d).unwrap() {
        DatapackPlan::Compose(sel) => {
            assert_eq!(sel.len(), 3);
            assert_eq!(sel[0].name, "graves");
            assert_eq!(sel[1].name, "armored elytra");
            assert_eq!(sel[2].name, "multiplayer sleep");
        },
        DatapackPlan::Direct(_) => panic!("a selection list must reach the composer"),
    }
}

#[test]
fn same_name_in_another_category_is_no_duplicate() {
    let sel = dedup_tweaks(&vec![
        tweak("survival", "graves"),
        tweak("hermitcraft", "graves"),
        tweak("survival", "graves"),
    ]);
    assert_eq!(sel.len(), 2);
    assert_eq!(sel[0].category, "survival");
    assert_eq!(sel[1].category, "hermitcraft");
}

#[test]
fn both_forms_present_is_malformed() {
    let d = Datapack {
        vanilla_tweaks: Some(vec![tweak("survival", "graves")]),
        file: Some(File { url: "https://packs.example/p.zip".to_string(), checksum: None }),
    };
    assert_eq!(plan_datapack(&d).unwrap_err(), ResolutionError::MalformedRequest);
}

#[test]
fn neither_form_present_is_malformed() {
    let d = Datapack { vanilla_tweaks: None, file: None };
    assert_eq!(plan_datapack(&d).unwrap_err(), ResolutionError::MalformedRequest);
}
