use embroidery::errors::Error;
use embroidery::format::{PatternLoader, PatternWriter, StitchSupport};
use embroidery::formats::{get_all, get_readers, get_writers, PatternFormat};
use embroidery::pattern::Pattern;
use embroidery::stitch::Stitch;
use embroidery::stream::ByteSource;

/// A reader known by its name, which takes a source that starts with the
/// name's first byte.
#[derive(Debug, PartialEq)]
struct Reader(&'static str);

impl PatternLoader for Reader {
    fn is_loadable(&self, item: &mut ByteSource) -> Result<bool, Error> {
        Ok(item.remaining().first() == self.0.as_bytes().first())
    }

    fn read_pattern(&self, item: &mut ByteSource) -> Result<Pattern, Error> {
        item.seek(usize::MAX);
        Ok(Pattern::new(vec![], vec![]))
    }
}

/// A writer known by its name, which holds every stitch.
#[derive(Debug, PartialEq)]
struct Writer(&'static str);

impl StitchSupport for Writer {
    fn supports(&self, _stitch: Stitch) -> bool {
        true
    }

    fn can_write(&self, _stitch: &Stitch) -> bool {
        true
    }
}

impl PatternWriter for Writer {
    fn write_pattern(&self, _pattern: &Pattern, sink: &mut Vec<u8>) -> Result<(), Error> {
        sink.extend_from_slice(self.0.as_bytes());
        Ok(())
    }
}

fn both(name: &'static str) -> PatternFormat<Reader, Writer> {
    PatternFormat { reader: Some(Reader(name)), writer: Some(Writer(name)) }
}

fn read_only(name: &'static str) -> PatternFormat<Reader, Writer> {
    PatternFormat { reader: Some(Reader(name)), writer: None }
}

fn write_only(name: &'static str) -> PatternFormat<Reader, Writer> {
    PatternFormat { reader: None, writer: Some(Writer(name)) }
}

fn catalog() -> Vec<PatternFormat<Reader, Writer>> {
    get_all(both("csv"), both("dst"), read_only("hus"), write_only("svg"))
}

#[test]
fn the_catalog_keeps_the_order_of_its_formats() {
    let all = catalog();
    assert_eq!(all.len(), 4);
    assert_eq!(all[0].reader, Some(Reader("csv")));
    assert_eq!(all[0].writer, Some(Writer("csv")));
    assert_eq!(all[1].reader, Some(Reader("dst")));
    assert_eq!(all[1].writer, Some(Writer("dst")));
    assert_eq!(all[2].reader, Some(Reader("hus")));
    assert_eq!(all[2].writer, None);
    assert_eq!(all[3].reader, None);
    assert_eq!(all[3].writer, Some(Writer("svg")));
}

#[test]
fn readers_are_those_of_the_formats_that_read() {
    assert_eq!(get_readers(catalog()), vec![Reader("csv"), Reader("dst"), Reader("hus")]);
}

#[test]
fn writers_are_those_of_the_formats_that_write() {
    assert_eq!(get_writers(catalog()), vec![Writer("csv"), Writer("dst"), Writer("svg")]);
}

#[test]
fn readers_and_writers_keep_catalog_order() {
    let all = vec![write_only("a"), read_only("b"), both("c"), write_only("d"), read_only("e")];
    assert_eq!(get_readers(all), vec![Reader("b"), Reader("c"), Reader("e")]);
    let all = vec![write_only("a"), read_only("b"), both("c"), write_only("d"), read_only("e")];
    assert_eq!(get_writers(all), vec![Writer("a"), Writer("c"), Writer("d")]);
}

#[test]
fn a_format_without_capabilities_gives_nothing() {
    let all: Vec<PatternFormat<Reader, Writer>> =
        vec![PatternFormat { reader: None, writer: None }, PatternFormat { reader: None, writer: None }];
    assert!(get_readers(all).is_empty());
    let all: Vec<PatternFormat<Reader, Writer>> = vec![PatternFormat { reader: None, writer: None }];
    assert!(get_writers(all).is_empty());
}

#[test]
fn an_empty_catalog_gives_nothing() {
    assert!(get_readers(Vec::<PatternFormat<Reader, Writer>>::new()).is_empty());
    assert!(get_writers(Vec::<PatternFormat<Reader, Writer>>::new()).is_empty());
}

#[test]
fn equal_formats_are_all_kept() {
    let all = vec![both("x"), both("x"), read_only("x")];
    assert_eq!(get_readers(all), vec![Reader("x"), Reader("x"), Reader("x")]);
}

#[test]
fn the_readers_are_tried_in_catalog_order() {
    let readers = get_readers(catalog());
    let mut source = ByteSource::new(b"dst file".to_vec());
    let mut found = None;
    for (i, reader) in readers.iter().enumerate() {
        if reader.is_loadable(&mut source) == Ok(true) {
            found = Some(i);
            break;
        }
    }
    assert_eq!(found, Some(1));
    assert_eq!(source.position(), 0);
}
