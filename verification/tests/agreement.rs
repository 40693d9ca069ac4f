use cyrano::fencer::Fencer;
use cyrano::message::Message;
use cyrano::text::split;
use cyrano::text::trim_matches;
use cyrano::ParseError;

const COMPLETE: &str = "|EFP1.1|INFO|17|efj-eq|1|A32|12|2|10:30|3:00|I|S||W|132|J.Smith|GBR|%|28|P.Martin|FRA|8|V|0|1|1|0|0|N|%|32|B. Panini|ITA|6|D|0|1|0|0|0|N|%|";

const SPARSE: &str = " |EFP1|hello|7||255|||+3|||T|E|L|P|||SUI|%||Name||x|A|1|2|1|0|3|R|5|%|1| ";

fn field<'a>(fields: &[&'a str], index: usize) -> Option<&'a str> {
    fields.get(index).copied().filter(|s| !s.is_empty())
}

fn text(fields: &[&str], index: usize) -> String {
    format!("{:?}", field(fields, index))
}

fn number(fields: &[&str], index: usize) -> String {
    format!("{:?}", field(fields, index).and_then(|s| s.parse::<u8>().ok()))
}

fn flag(fields: &[&str], index: usize) -> String {
    format!("{:?}", field(fields, index).map(|s| s == "1"))
}

fn value(fields: &[&str], index: usize, tokens: &[(&str, &str)]) -> String {
    let found = field(fields, index)
        .and_then(|s| tokens.iter().find(|(token, _)| *token == s))
        .map(|(_, name)| name.to_string());
    match found {
        Some(name) => format!("Some({})", name),
        None => "None".to_string(),
    }
}

const STATUS: [(&str, &str); 5] =
    [("U", "Undefined"), ("V", "Victory"), ("D", "Defeat"), ("A", "Abandonment"), ("E", "Exclusion")];
const RESERVE: [(&str, &str); 2] = [("N", "NoReserve"), ("R", "Introduce")];
const P_CARD: [(&str, &str); 6] = [
    ("0", "NoCard"),
    ("1", "Yellow"),
    ("2", "OneRed"),
    ("3", "TwoRed"),
    ("4", "OneBlack"),
    ("5", "TwoBlack"),
];
const COMPETITION: [(&str, &str); 2] = [("I", "Individual"), ("T", "Team")];
const WEAPON: [(&str, &str); 3] = [("F", "Foil"), ("E", "Epee"), ("S", "Sabre")];
const PRIORITY: [(&str, &str); 3] = [("N", "NoPriority"), ("R", "Right"), ("L", "Left")];
const STATE: [(&str, &str); 5] =
    [("F", "Fencing"), ("H", "Halt"), ("P", "Pause"), ("W", "Waiting"), ("E", "Ending")];
const COMMAND: [(&str, &str); 7] = [
    ("HELLO", "Hello"),
    ("DISP", "Disp"),
    ("ACK", "Ack"),
    ("NAK", "Nak"),
    ("INFO", "Info"),
    ("NEXT", "Next"),
    ("PREV", "Prev"),
];

/// What a fencer's zone says, read with the string functions of `std`.
fn expected_fencer(zone: Option<&&str>) -> Vec<String> {
    let fields: Vec<&str> = match zone {
        Some(zone) => zone.trim_matches('|').split('|').collect(),
        None => Vec::new(),
    };
    vec![
        text(&fields, 0),
        text(&fields, 1),
        text(&fields, 2),
        number(&fields, 3),
        value(&fields, 4, &STATUS),
        number(&fields, 5),
        number(&fields, 6),
        flag(&fields, 7),
        flag(&fields, 8),
        number(&fields, 9),
        value(&fields, 10, &RESERVE),
        value(&fields, 11, &P_CARD),
    ]
}

/// What a line says, read with the string functions of `std`.
fn expected(raw: &str) -> Result<Vec<String>, String> {
    let line = raw.trim();
    if line.is_empty() {
        return Err("EmptyMessage".to_string());
    }
    let zones: Vec<&str> = line.trim_matches('|').split('%').collect();
    let general: Vec<&str> = zones[0].trim_matches('|').split('|').collect();
    let protocol = match field(&general, 0) {
        Some(tag) => tag,
        None => return Err("MissingField(\"protocol\")".to_string()),
    };
    if protocol != "EFP1.1" && protocol != "EFP1" {
        return Err(format!("InvalidProtocol({:?})", protocol));
    }
    let word = match field(&general, 1) {
        Some(word) => word,
        None => return Err("MissingField(\"command\")".to_string()),
    };
    let upper = word.to_uppercase();
    let command = match COMMAND.iter().find(|(token, _)| *token == upper) {
        Some((_, name)) => name.to_string(),
        None => return Err(format!("InvalidCommand({:?})", word)),
    };
    let mut all = vec![
        format!("{:?}", protocol),
        command,
        format!("{:?}", field(&general, 2).unwrap_or("")),
        format!("{:?}", field(&general, 3).unwrap_or("")),
        number(&general, 4),
        text(&general, 5),
        number(&general, 6),
        number(&general, 7),
        text(&general, 8),
        text(&general, 9),
        value(&general, 10, &COMPETITION),
        value(&general, 11, &WEAPON),
        value(&general, 12, &PRIORITY),
        value(&general, 13, &STATE),
        text(&general, 14),
        text(&general, 15),
        text(&general, 16),
    ];
    all.extend(expected_fencer(zones.get(1)));
    all.extend(expected_fencer(zones.get(2)));
    Ok(all)
}

fn shown_fencer(fencer: &Fencer) -> Vec<String> {
    vec![
        format!("{:?}", fencer.id),
        format!("{:?}", fencer.name),
        format!("{:?}", fencer.nation),
        format!("{:?}", fencer.score),
        format!("{:?}", fencer.status),
        format!("{:?}", fencer.yellow_card),
        format!("{:?}", fencer.red_card),
        format!("{:?}", fencer.light),
        format!("{:?}", fencer.white_light),
        format!("{:?}", fencer.medical),
        format!("{:?}", fencer.reserve),
        format!("{:?}", fencer.p_card),
    ]
}

fn shown(result: Result<Message, ParseError>) -> Result<Vec<String>, String> {
    match result {
        Err(error) => Err(format!("{:?}", error)),
        Ok(msg) => {
            let mut all = vec![
                format!("{:?}", msg.protocol),
                format!("{:?}", msg.command),
                format!("{:?}", msg.piste),
                format!("{:?}", msg.competition_id),
                format!("{:?}", msg.phase),
                format!("{:?}", msg.pool_tableau),
                format!("{:?}", msg.match_number),
                format!("{:?}", msg.round),
                format!("{:?}", msg.time),
                format!("{:?}", msg.stopwatch),
                format!("{:?}", msg.competition_type),
                format!("{:?}", msg.weapon),
                format!("{:?}", msg.priority),
                format!("{:?}", msg.state),
                format!("{:?}", msg.referee.id),
                format!("{:?}", msg.referee.name),
                format!("{:?}", msg.referee.nation),
            ];
            all.extend(shown_fencer(&msg.right_fencer));
            all.extend(shown_fencer(&msg.left_fencer));
            Ok(all)
        }
    }
}

/// The lines that differ from `line` in one character: one left out, one
/// replaced, or one put in.
fn variants(line: &str) -> Vec<String> {
    let chars: Vec<char> = line.chars().collect();
    let spare = ['|', '%', ' ', 'x', 'E', '1', '0', '+', '\n', 'ı', '\u{A0}'];
    let mut all = vec![line.to_string()];
    for i in 0..=chars.len() {
        for c in spare {
            let mut longer = chars.clone();
            longer.insert(i, c);
            all.push(longer.into_iter().collect());
        }
        if i < chars.len() {
            let mut shorter = chars.clone();
            shorter.remove(i);
            all.push(shorter.into_iter().collect());
            for c in spare {
                let mut other = chars.clone();
                other[i] = c;
                all.push(other.into_iter().collect());
            }
        }
    }
    all
}

#[test]
fn decoding_agrees_with_std_string_functions() {
    for base in [COMPLETE, SPARSE, "|EFP1.1|HELLO|17|fm-eq|%|", "|EFP1|ınfo|%|"] {
        for line in variants(base) {
            assert_eq!(shown(Message::try_from(line.as_str())), expected(&line), "{:?}", line);
        }
    }
}

#[test]
fn decoding_short_lines_agrees_with_std_string_functions() {
    let alphabet = ['|', '%', ' ', 'E', 'F', 'P', '1', '.', 'a', 'c', 'k'];
    let mut last = vec![String::new()];
    for _ in 0..4 {
        let mut next = Vec::new();
        for line in &last {
            for c in alphabet {
                let mut longer = line.clone();
                longer.push(c);
                assert_eq!(
                    shown(Message::try_from(longer.as_str())),
                    expected(&longer),
                    "{:?}",
                    longer
                );
                next.push(longer);
            }
        }
        last = next;
    }
    for tail in ["", "|", "|ack", "|ACK|", "|nak|1|%|2|%|3", "|%|", "%"] {
        for head in ["EFP1", "|EFP1", " EFP1.1", "||EFP1.1", "EFP1.", "efp1"] {
            let line = format!("{}{}", head, tail);
            assert_eq!(shown(Message::try_from(line.as_str())), expected(&line), "{:?}", line);
        }
    }
}

/// The zone of a fencer, written with the string functions of `std`.
fn expected_zone(fencer: &Fencer) -> String {
    let flag = |v: Option<bool>| v.map(|b| if b { "1" } else { "0" }.to_string()).unwrap_or_default();
    let number = |v: Option<u8>| v.map(|n| n.to_string()).unwrap_or_default();
    let mut fields = vec![
        fencer.id.clone().unwrap_or_default(),
        fencer.name.clone().unwrap_or_default(),
        fencer.nation.clone().unwrap_or_default(),
        number(fencer.score),
        fencer.status.map(|v| v.to_string()).unwrap_or_default(),
        number(fencer.yellow_card),
        number(fencer.red_card),
        flag(fencer.light),
        flag(fencer.white_light),
        number(fencer.medical),
        fencer.reserve.map(|v| v.to_string()).unwrap_or_default(),
        fencer.p_card.map(|v| v.to_string()).unwrap_or_default(),
    ];
    while fields.last().is_some_and(|s| s.is_empty()) {
        fields.pop();
    }
    fields.join("|")
}

/// The line of a message, written with the string functions of `std`.
fn expected_line(msg: &Message) -> String {
    let number = |v: Option<u8>| v.map(|n| n.to_string()).unwrap_or_default();
    let general = vec![
        msg.protocol.clone(),
        msg.command.to_string(),
        msg.piste.clone(),
        msg.competition_id.clone(),
        number(msg.phase),
        msg.pool_tableau.clone().unwrap_or_default(),
        number(msg.match_number),
        number(msg.round),
        msg.time.clone().unwrap_or_default(),
        msg.stopwatch.clone().unwrap_or_default(),
        msg.competition_type.map(|v| v.to_string()).unwrap_or_default(),
        msg.weapon.map(|v| v.to_string()).unwrap_or_default(),
        msg.priority.map(|v| v.to_string()).unwrap_or_default(),
        msg.state.map(|v| v.to_string()).unwrap_or_default(),
        msg.referee.id.clone().unwrap_or_default(),
        msg.referee.name.clone().unwrap_or_default(),
        msg.referee.nation.clone().unwrap_or_default(),
    ];
    format!(
        "|{}|%|{}|%|{}|%|",
        general.join("|"),
        expected_zone(&msg.right_fencer),
        expected_zone(&msg.left_fencer)
    )
}

#[test]
fn encoding_agrees_with_std_string_functions() {
    for base in [COMPLETE, SPARSE, "|EFP1.1|HELLO|17|fm-eq|%|"] {
        for line in variants(base) {
            if let Ok(msg) = Message::try_from(line.as_str()) {
                assert_eq!(msg.right_fencer.serialize(), expected_zone(&msg.right_fencer));
                assert_eq!(msg.left_fencer.serialize(), expected_zone(&msg.left_fencer));
                assert_eq!(msg.to_string(), expected_line(&msg), "{:?}", line);
            }
        }
    }
}

#[test]
fn reading_a_written_line_keeps_the_general_zone() {
    for base in [COMPLETE, SPARSE] {
        for line in variants(base) {
            if let Ok(msg) = Message::try_from(line.as_str()) {
                let written = msg.to_string();
                let again = Message::try_from(written.as_str()).unwrap();
                let before = shown(Ok(msg.clone())).unwrap();
                let after = shown(Ok(again)).unwrap();
                assert_eq!(before[..17], after[..17], "{:?}", line);
                if msg.right_fencer.id.is_some() || expected_zone(&msg.right_fencer).is_empty() {
                    assert_eq!(before[17..29], after[17..29], "{:?}", line);
                }
                if msg.left_fencer.id.is_some() || expected_zone(&msg.left_fencer).is_empty() {
                    assert_eq!(before[29..], after[29..], "{:?}", line);
                }
            }
        }
    }
}

#[test]
fn a_written_zone_is_cut_into_the_fencer_again() {
    for base in [COMPLETE, SPARSE] {
        for line in variants(base) {
            if let Ok(msg) = Message::try_from(line.as_str()) {
                for fencer in [&msg.right_fencer, &msg.left_fencer] {
                    let zone = fencer.serialize();
                    let read = Fencer::parse(&split(&zone, '|')).unwrap();
                    assert_eq!(shown_fencer(&read), shown_fencer(fencer), "{:?}", line);
                    assert_eq!(trim_matches(&zone, '|').len() <= zone.len(), true);
                }
            }
        }
    }
}
