//! Tests of the family-tree data model and the storage seam.

use helix_core::storage::{HelixDbStorage, StorageBackend};
use helix_core::tree::{
    FamilyTree, House, HouseInfo, IngestStats, Person, RelationshipDef, TreeError,
};

fn person(id: &str, name: &str, house: House) -> Person {
    Person { id: id.to_string(), name: name.to_string(), house }
}

fn sample_tree() -> FamilyTree {
    FamilyTree {
        houses: vec![HouseInfo {
            name: "Stark".to_string(),
            seat: Some("Winterfell".to_string()),
            words: Some("Winter Is Coming".to_string()),
        }],
        people: vec![
            person("ned-stark", "Eddard Stark", House::Stark),
            person("catelyn-stark", "Catelyn Stark", House::Tully),
            person("robb-stark", "Robb Stark", House::Stark),
        ],
        relationships: vec![
            RelationshipDef::ParentOf {
                from: "ned-stark".to_string(),
                to: vec!["robb-stark".to_string()],
            },
            RelationshipDef::SpouseOf {
                between: vec!["ned-stark".to_string(), "catelyn-stark".to_string()],
            },
        ],
    }
}

#[test]
fn validate_accepts_consistent_tree() {
    assert!(sample_tree().validate().is_ok());
}

#[test]
fn validate_rejects_unknown_person() {
    let mut tree = sample_tree();
    tree.relationships.push(RelationshipDef::ParentOf {
        from: "jon-snow".to_string(),
        to: vec!["robb-stark".to_string()],
    });
    match tree.validate() {
        Err(TreeError::InvalidRelationship(m)) => {
            assert_eq!(m, "Unknown person in parent_of.from: jon-snow");
        }
        Ok(()) => panic!("expected a validation failure"),
    }

    let mut tree2 = sample_tree();
    tree2.relationships.push(RelationshipDef::SiblingOf {
        between: vec!["robb-stark".to_string(), "arya-stark".to_string()],
    });
    match tree2.validate() {
        Err(TreeError::InvalidRelationship(m)) => {
            assert_eq!(m, "Unknown person in relationship: arya-stark");
        }
        Ok(()) => panic!("expected a validation failure"),
    }
}

#[test]
fn person_lookup() {
    let tree = sample_tree();
    let ned = tree.get_person("ned-stark").expect("ned exists");
    assert_eq!(ned.name, "Eddard Stark");
    assert!(tree.get_person("jon-snow").is_none());
}

#[test]
fn house_membership() {
    let tree = sample_tree();
    let starks = tree.get_house_members(House::Stark);
    let names: Vec<&str> = starks.iter().map(|p| p.id.as_str()).collect();
    assert_eq!(names, vec!["ned-stark", "robb-stark"]);
    assert!(tree.get_house_members(House::Lannister).is_empty());
}

#[test]
fn ingest_stats_default() {
    let stats = IngestStats::default();
    assert_eq!(stats, IngestStats { nodes_inserted: 0, edges_inserted: 0 });
}

#[test]
fn storage_health_check() {
    let storage = HelixDbStorage;
    assert!(storage.health_check().is_ok());
}
