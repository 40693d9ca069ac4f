use cyrano::enums::FencerStatus;
use cyrano::enums::PCard;
use cyrano::enums::Reserve;
use cyrano::fencer::Fencer;
use cyrano::text::split;

fn full_fencer() -> Fencer {
    Fencer {
        id: Some("28".to_string()),
        name: Some("P.Martin".to_string()),
        nation: Some("FRA".to_string()),
        score: Some(8),
        status: Some(FencerStatus::Victory),
        yellow_card: Some(0),
        red_card: Some(1),
        light: Some(true),
        white_light: Some(false),
        medical: Some(0),
        reserve: Some(Reserve::NoReserve),
        p_card: Some(PCard::OneRed),
    }
}

fn assert_same(a: &Fencer, b: &Fencer) {
    assert_eq!(a.id, b.id);
    assert_eq!(a.name, b.name);
    assert_eq!(a.nation, b.nation);
    assert_eq!(a.score, b.score);
    assert_eq!(a.status, b.status);
    assert_eq!(a.yellow_card, b.yellow_card);
    assert_eq!(a.red_card, b.red_card);
    assert_eq!(a.light, b.light);
    assert_eq!(a.white_light, b.white_light);
    assert_eq!(a.medical, b.medical);
    assert_eq!(a.reserve, b.reserve);
    assert_eq!(a.p_card, b.p_card);
}

#[test]
fn fencer_parse_reads_the_twelve_fields() {
    let fields = vec!["28", "P.Martin", "FRA", "8", "V", "0", "1", "1", "0", "2", "R", "3"];
    let fencer = Fencer::parse(&fields).unwrap();
    assert_eq!(fencer.id, Some("28".to_string()));
    assert_eq!(fencer.name, Some("P.Martin".to_string()));
    assert_eq!(fencer.nation, Some("FRA".to_string()));
    assert_eq!(fencer.score, Some(8));
    assert_eq!(fencer.status, Some(FencerStatus::Victory));
    assert_eq!(fencer.yellow_card, Some(0));
    assert_eq!(fencer.red_card, Some(1));
    assert_eq!(fencer.light, Some(true));
    assert_eq!(fencer.white_light, Some(false));
    assert_eq!(fencer.medical, Some(2));
    assert_eq!(fencer.reserve, Some(Reserve::Introduce));
    assert_eq!(fencer.p_card, Some(PCard::TwoRed));
}

#[test]
fn fencer_parse_of_no_tokens_is_the_default() {
    assert_same(&Fencer::parse(&[]).unwrap(), &Fencer::default());
    assert_same(&Fencer::parse(&[""]).unwrap(), &Fencer::default());
    assert_same(&Fencer::parse(&["", "", ""]).unwrap(), &Fencer::default());
}

#[test]
fn fencer_default_has_every_field_absent() {
    let fencer = Fencer::default();
    assert_eq!(fencer.id, None);
    assert_eq!(fencer.name, None);
    assert_eq!(fencer.nation, None);
    assert_eq!(fencer.score, None);
    assert_eq!(fencer.status, None);
    assert_eq!(fencer.yellow_card, None);
    assert_eq!(fencer.red_card, None);
    assert_eq!(fencer.light, None);
    assert_eq!(fencer.white_light, None);
    assert_eq!(fencer.medical, None);
    assert_eq!(fencer.reserve, None);
    assert_eq!(fencer.p_card, None);
}

#[test]
fn fencer_parse_absorbs_unreadable_fields() {
    let fields = vec!["28", "", "FRA", "eight", "X", "256", "-1", "yes", "", "1.5", "n", "6", "more"];
    let fencer = Fencer::parse(&fields).unwrap();
    assert_eq!(fencer.id, Some("28".to_string()));
    assert_eq!(fencer.name, None);
    assert_eq!(fencer.nation, Some("FRA".to_string()));
    assert_eq!(fencer.score, None);
    assert_eq!(fencer.status, None);
    assert_eq!(fencer.yellow_card, None);
    assert_eq!(fencer.red_card, None);
    assert_eq!(fencer.light, Some(false));
    assert_eq!(fencer.white_light, None);
    assert_eq!(fencer.medical, None);
    assert_eq!(fencer.reserve, None);
    assert_eq!(fencer.p_card, None);
}

#[test]
fn fencer_parse_of_a_short_zone() {
    let fencer = Fencer::parse(&["32", "B. Panini"]).unwrap();
    assert_eq!(fencer.id, Some("32".to_string()));
    assert_eq!(fencer.name, Some("B. Panini".to_string()));
    assert_eq!(fencer.nation, None);
    assert_eq!(fencer.p_card, None);
}

#[test]
fn fencer_serialize_writes_the_twelve_fields() {
    assert_eq!(full_fencer().serialize(), "28|P.Martin|FRA|8|V|0|1|1|0|0|N|2");
}

#[test]
fn fencer_serialize_drops_empty_fields_at_the_end() {
    let mut fencer = full_fencer();
    fencer.p_card = None;
    assert_eq!(fencer.serialize(), "28|P.Martin|FRA|8|V|0|1|1|0|0|N");
    fencer.reserve = None;
    fencer.medical = None;
    assert_eq!(fencer.serialize(), "28|P.Martin|FRA|8|V|0|1|1|0");
    let only_id = Fencer { id: Some("7".to_string()), ..Fencer::default() };
    assert_eq!(only_id.serialize(), "7");
    assert_eq!(Fencer::default().serialize(), "");
}

#[test]
fn fencer_serialize_keeps_empty_fields_before_a_present_one() {
    let mut fencer = full_fencer();
    fencer.name = None;
    fencer.score = None;
    fencer.light = None;
    assert_eq!(fencer.serialize(), "28||FRA||V|0|1||0|0|N|2");
    let last_only = Fencer { p_card: Some(PCard::NoCard), ..Fencer::default() };
    assert_eq!(last_only.serialize(), "|||||||||||0");
    let name_only = Fencer { name: Some("X".to_string()), ..Fencer::default() };
    assert_eq!(name_only.serialize(), "|X");
    let flags = Fencer { light: Some(false), white_light: Some(true), ..Fencer::default() };
    assert_eq!(flags.serialize(), "|||||||0|1");
}

#[test]
fn fencer_serialize_writes_numbers_in_decimal() {
    let fencer = Fencer {
        id: Some("1".to_string()),
        score: Some(255),
        yellow_card: Some(10),
        red_card: Some(100),
        medical: Some(0),
        ..Fencer::default()
    };
    assert_eq!(fencer.serialize(), "1|||255||10|100|||0");
}

#[test]
fn fencer_trailing_trim_moves_no_field() {
    let mut fencers = vec![full_fencer(), Fencer::default()];
    let mut sparse = full_fencer();
    sparse.id = None;
    sparse.score = None;
    sparse.reserve = None;
    sparse.p_card = None;
    fencers.push(sparse);
    fencers.push(Fencer { name: Some("X".to_string()), ..Fencer::default() });
    fencers.push(Fencer { p_card: Some(PCard::TwoBlack), ..Fencer::default() });
    fencers.push(Fencer { light: Some(true), ..Fencer::default() });
    for fencer in &fencers {
        let zone = fencer.serialize();
        let tokens = split(&zone, '|');
        assert!(tokens.len() <= 12);
        if zone.is_empty() {
            assert_eq!(tokens, vec![""]);
        } else {
            assert_ne!(*tokens.last().unwrap(), "");
        }
        let read = Fencer::parse(&tokens).unwrap();
        assert_same(&read, fencer);
    }
}

#[test]
fn fencer_clone_is_equal() {
    let fencer = full_fencer();
    assert_same(&fencer.clone(), &fencer);
    assert_eq!(format!("{:?}", Fencer::default().id), "None");
}
