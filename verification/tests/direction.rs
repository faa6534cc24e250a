use banana_lib::direction::bitmap::DirectionBitmap;
use banana_lib::direction::cardinal::CardinalDirection;
use banana_lib::direction::direction::{Direction, DirectionType};
use banana_lib::direction::iter::{
    CardinalDirections, Directions, DirectionsCardinal, DirectionsOrdinal, OrdinalDirections,
};
use banana_lib::direction::ordinal::OrdinalDirection;
use banana_lib::direction::table::{CardinalDirectionTable, DirectionTable, OrdinalDirectionTable};
use banana_lib::axis::Axis;
use banana_lib::vec2::IVec2;
use rand::rngs::StdRng;
use rand::SeedableRng;

#[test]
fn iteration() {
    {
        assert_eq!(
            CardinalDirections.into_iter().to_vec(),
            vec![
                CardinalDirection::North,
                CardinalDirection::East,
                CardinalDirection::South,
                CardinalDirection::West
            ]
        )
    }

    {
        assert_eq!(
            OrdinalDirections.into_iter().to_vec(),
            vec![
                OrdinalDirection::NorthEast,
                OrdinalDirection::SouthEast,
                OrdinalDirection::SouthWest,
                OrdinalDirection::NorthWest
            ]
        )
    }

    {
        assert_eq!(
            Directions.into_iter().to_vec(),
            vec![
                Direction::North,
                Direction::NorthEast,
                Direction::East,
                Direction::SouthEast,
                Direction::South,
                Direction::SouthWest,
                Direction::West,
                Direction::NorthWest,
            ]
        )
    }
}

#[test]
fn table_iteration() {
    {
        let table = CardinalDirectionTable::new_fn(|d| d);
        assert!(table.enumerate().iter().all(|&(a, &b)| a == b));
    }
    {
        let table = OrdinalDirectionTable::new_fn(|d| d);
        assert!(table.enumerate().iter().all(|&(a, &b)| a == b));
    }
    {
        let table = DirectionTable::new_fn(|d| d);
        assert!(table.enumerate().iter().all(|&(a, &b)| a == b));
    }
}

#[test]
fn sub_direction_walks() {
    assert_eq!(
        DirectionsCardinal.into_iter().to_vec(),
        vec![Direction::North, Direction::East, Direction::South, Direction::West]
    );
    assert_eq!(
        DirectionsOrdinal.into_iter().to_vec(),
        vec![
            Direction::NorthEast,
            Direction::SouthEast,
            Direction::SouthWest,
            Direction::NorthWest
        ]
    );
    let mut it = Direction::all();
    assert_eq!(it.next(), Some(Direction::North));
    assert_eq!(it.next(), Some(Direction::NorthEast));
    assert_eq!(it.to_vec().len(), 6);
    assert_eq!(CardinalDirection::all().to_vec().len(), 4);
    assert_eq!(OrdinalDirection::all().to_vec().len(), 4);
    assert_eq!(CardinalDirection::all_directions().to_vec()[1], Direction::East);
    assert_eq!(OrdinalDirection::all_directions().to_vec()[3], Direction::NorthWest);
}

#[test]
fn rotations_of_directions() {
    assert_eq!(Direction::North.opposite(), Direction::South);
    assert_eq!(Direction::NorthEast.opposite(), Direction::SouthWest);
    assert_eq!(Direction::North.left90(), Direction::West);
    assert_eq!(Direction::North.right90(), Direction::East);
    assert_eq!(Direction::North.left45(), Direction::NorthWest);
    assert_eq!(Direction::North.right45(), Direction::NorthEast);
    assert_eq!(Direction::North.left135(), Direction::SouthWest);
    assert_eq!(Direction::North.right135(), Direction::SouthEast);
    assert_eq!(Direction::NorthWest.right45(), Direction::North);
    assert_eq!(Direction::SouthEast.left135(), Direction::North);
    for d in Directions.into_iter().to_vec() {
        assert_eq!(d.opposite().opposite(), d);
        assert_eq!(d.left45().right45(), d);
        assert_eq!(d.left90().right90(), d);
        assert_eq!(d.right135().left135(), d);
        assert_eq!(d.right45().right45(), d.right90());
        assert_eq!(Direction::from_unit_coord(d.coord()), d);
        assert_eq!(d.coord().x, -d.opposite().coord().x);
        assert_eq!(d.coord().y, -d.opposite().coord().y);
        assert_eq!(d.is_cardinal(), !d.is_ordinal());
        assert_eq!(d.cardinal().is_some(), d.is_cardinal());
        assert_eq!(d.ordinal().is_some(), d.is_ordinal());
        assert_eq!(d.bitmap_raw(), 1 << d.index());
        assert!(d.bitmap().has(d));
        assert!(!d.bitmap().has(d.opposite()));
        match d.typ() {
            DirectionType::Cardinal(c) => assert_eq!(c.direction(), d),
            DirectionType::Ordinal(o) => assert_eq!(o.direction(), d),
        }
    }
}

#[test]
fn coordinates_of_directions() {
    assert_eq!(Direction::North.coord(), IVec2::new(0, -1));
    assert_eq!(Direction::SouthWest.coord(), IVec2::new(-1, 1));
    assert_eq!(Direction::from_unit_coord((1, 0)), Direction::East);
    assert_eq!(Direction::from_unit_coord((-1, -1)), Direction::NorthWest);
    assert_eq!(CardinalDirection::from_unit_coord((0, 1)), CardinalDirection::South);
    assert_eq!(OrdinalDirection::from_unit_coord((1, -1)), OrdinalDirection::NorthEast);
    assert_eq!(<[i32; 2]>::from(Direction::East), [1, 0]);
    assert_eq!(<(i32, i32)>::from(Direction::NorthWest), (-1, -1));
    assert_eq!(<[i32; 2]>::from(CardinalDirection::West), [-1, 0]);
    assert_eq!(<(i32, i32)>::from(CardinalDirection::North), (0, -1));
    assert_eq!(<[i32; 2]>::from(OrdinalDirection::SouthWest), [-1, 1]);
    assert_eq!(<(i32, i32)>::from(OrdinalDirection::SouthEast), (1, 1));
}

#[test]
fn cardinal_directions() {
    let (north, east, south, west) = (
        CardinalDirection::North,
        CardinalDirection::East,
        CardinalDirection::South,
        CardinalDirection::West,
    );
    assert_eq!(north.opposite(), south);
    assert_eq!(east.left90(), north);
    assert_eq!(east.right90(), south);
    assert_eq!(north.left45(), OrdinalDirection::NorthWest);
    assert_eq!(north.right45(), OrdinalDirection::NorthEast);
    assert_eq!(west.left135(), OrdinalDirection::SouthEast);
    assert_eq!(west.right135(), OrdinalDirection::NorthEast);
    assert_eq!(east.axis(), Axis::X);
    assert_eq!(north.axis(), Axis::Y);
    assert_eq!(north.sign(), -1);
    assert_eq!(south.sign(), 1);
    assert_eq!(west.axis_and_sign(), (Axis::X, -1));
    assert_eq!(north.combine(east), Some(OrdinalDirection::NorthEast));
    assert_eq!(west.combine(south), Some(OrdinalDirection::SouthWest));
    assert_eq!(north.combine(south), None);
    assert_eq!(north.combine(north), None);
    assert_eq!(south.direction(), Direction::South);
    assert_eq!(west.coord(), IVec2::new(-1, 0));
}

#[test]
fn ordinal_directions() {
    let (north_east, south_east, south_west, north_west) = (
        OrdinalDirection::NorthEast,
        OrdinalDirection::SouthEast,
        OrdinalDirection::SouthWest,
        OrdinalDirection::NorthWest,
    );
    assert_eq!(north_east.opposite(), south_west);
    assert_eq!(north_east.left90(), north_west);
    assert_eq!(north_east.right90(), south_east);
    assert_eq!(north_east.left45(), CardinalDirection::North);
    assert_eq!(north_east.right45(), CardinalDirection::East);
    assert_eq!(north_east.left135(), CardinalDirection::West);
    assert_eq!(north_east.right135(), CardinalDirection::South);
    assert_eq!(south_west.to_cardinals(), (CardinalDirection::South, CardinalDirection::West));
    assert_eq!(
        OrdinalDirection::from_cardinals(CardinalDirection::East, CardinalDirection::South),
        Some(south_east)
    );
    assert_eq!(
        OrdinalDirection::from_cardinals(CardinalDirection::East, CardinalDirection::West),
        None
    );
    assert_eq!(north_west.cardinal_bitmap().raw, 0b0100_0001);
    assert_eq!(south_east.direction(), Direction::SouthEast);
    assert_eq!(south_east.coord(), IVec2::new(1, 1));
}

#[test]
fn bitmaps() {
    assert!(DirectionBitmap::empty().is_empty());
    assert!(DirectionBitmap::all().is_full());
    assert!(!DirectionBitmap::all().is_empty());
    assert_eq!(DirectionBitmap::all_cardinal().raw, 0x55);
    assert_eq!(DirectionBitmap::all_ordinal().raw, 0xaa);
    assert!(DirectionBitmap::all_cardinal().has(Direction::West));
    assert!(!DirectionBitmap::all_cardinal().has(Direction::NorthWest));
    let both = DirectionBitmap::all_cardinal().or(DirectionBitmap::all_ordinal());
    assert!(both.is_full());
    let none = DirectionBitmap::all_cardinal().and(DirectionBitmap::all_ordinal());
    assert!(none.is_empty());
    assert_eq!(DirectionBitmap::new(3) | DirectionBitmap::new(4), DirectionBitmap::new(7));
    assert_eq!(DirectionBitmap::new(3) & DirectionBitmap::new(6), DirectionBitmap::new(2));
    assert_eq!(DirectionBitmap::default(), DirectionBitmap::empty());
    let mut set = DirectionBitmap::new(3);
    set |= DirectionBitmap::new(12);
    assert_eq!(set.raw, 15);
    set &= DirectionBitmap::new(6);
    assert_eq!(set.raw, 6);
}

#[test]
fn tables() {
    let mut table = DirectionTable::new_clone(0u8);
    table.set(Direction::East, 3);
    assert_eq!(*table.get(Direction::East), 3);
    assert_eq!(table[Direction::East], 3);
    *table.get_mut(Direction::South) = 9;
    assert_eq!(table[Direction::South], 9);
    table[Direction::South] = 0;
    assert_eq!(*table.get(Direction::West), 0);
    assert_eq!(table.iter(), &[0, 0, 3, 0, 0, 0, 0, 0]);
    let table = CardinalDirectionTable::new_array([1, 2, 3, 4]);
    assert_eq!(*table.get(CardinalDirection::South), 3);
    assert_eq!(table.directions().to_vec().len(), 4);
    let table: OrdinalDirectionTable<u32> = OrdinalDirectionTable::new_default();
    assert_eq!(table.iter(), &[0, 0, 0, 0]);
    let mut order = Vec::new();
    let table = DirectionTable::new_fn(|d: Direction| {
        order.push(d);
        d.index()
    });
    assert_eq!(order, Directions.into_iter().to_vec());
    assert_eq!(table.iter(), &[0, 1, 2, 3, 4, 5, 6, 7]);
}

#[test]
fn sampled_directions() {
    let mut rng = StdRng::seed_from_u64(7);
    let mut seen = [false; 8];
    for _ in 0..400 {
        seen[Direction::sample(&mut rng).index()] = true;
    }
    assert!(seen.iter().all(|s| *s));
    let mut seen = [false; 4];
    for _ in 0..200 {
        seen[CardinalDirection::sample(&mut rng).index()] = true;
    }
    assert!(seen.iter().all(|s| *s));
    let mut seen = [false; 4];
    for _ in 0..200 {
        seen[OrdinalDirection::sample(&mut rng).index()] = true;
    }
    assert!(seen.iter().all(|s| *s));
}
