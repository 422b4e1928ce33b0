use monstrous::defs::terrain_catalog;
use monstrous::terrain::TerrainError;
use monstrous::terrain::TileTerrain;
use monstrous::terrain::make_ground_layer;

#[test]
fn catalog_lists_the_three_terrains_in_order() {
    let cat = terrain_catalog();
    assert_eq!(cat.len(), 3);
    assert_eq!(cat[0].label, "Mud");
    assert_eq!(cat[0].name, "mud");
    assert_eq!(cat[0].description, "Soil saturated with water.");
    assert_eq!(cat[0].texture_index, 13);
    assert_eq!(cat[0].support, 20);
    assert_eq!(cat[1].label, "Grass");
    assert_eq!(cat[1].name, "grass");
    assert_eq!(cat[1].description, "Green. Try to touch it.");
    assert_eq!(cat[1].texture_index, 14);
    assert_eq!(cat[1].support, 40);
    assert_eq!(cat[2].label, "Sand");
    assert_eq!(cat[2].name, "sand");
    assert_eq!(cat[2].description, "Gets everywhere, ruins vanilla sex fantasies.");
    assert_eq!(cat[2].texture_index, 15);
    assert_eq!(cat[2].support, 20);
}

#[test]
fn generation_fills_every_cell_with_the_chosen_index() {
    let field = make_ground_layer(4, 3, 1);
    assert_eq!(field.width, 4);
    assert_eq!(field.height, 3);
    assert_eq!(field.cells.len(), 12);
    for x in 0..4 {
        for y in 0..3 {
            assert_eq!(field.cell_at(x, y).terrain_id, 1);
        }
    }
}

#[test]
fn definition_round_trips_through_generation() {
    let cat = terrain_catalog();
    let field = make_ground_layer(320, 320, 1);
    let cell = field.cell_at(17, 200);
    let def = cell.def(&cat).unwrap();
    assert_eq!(def.label, "Grass");
    assert_eq!(def.name, "grass");
    assert_eq!(def.description, "Green. Try to touch it.");
    assert_eq!(def.texture_index, 14);
    assert_eq!(def.support, 40);
}

#[test]
fn invalid_index_is_reported_not_resolved() {
    let cat = terrain_catalog();
    let bad = TileTerrain { terrain_id: 3 };
    assert!(matches!(bad.def(&cat), Err(TerrainError::InvalidTerrainIndex)));
    let worse = TileTerrain { terrain_id: usize::MAX };
    assert!(matches!(worse.def(&cat), Err(TerrainError::InvalidTerrainIndex)));
}
