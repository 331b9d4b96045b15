//! The line encoder against the reference RDF serializer: every term
//! kind must render exactly as the `oxrdf` crate renders it.

use pokemon2rdf::encode::encode_statement;
use pokemon2rdf::ident::AnonId;
use pokemon2rdf::statement::{EntityRef, Statement, Term};

fn named(url: &str) -> EntityRef {
    EntityRef::named(String::from(url)).expect("valid IRI")
}

fn oxrdf_line(t: oxrdf::Triple) -> String {
    format!("{} .", t)
}

#[test]
fn named_subject_named_object() {
    let s = Statement {
        subject: named("http://example.org/a"),
        predicate: String::from("http://example.org/p"),
        object: Term::Entity(named("http://example.org/b")),
    };
    let line = encode_statement(&s);
    let reference = oxrdf_line(oxrdf::Triple {
        subject: oxrdf::NamedNode::new("http://example.org/a").unwrap().into(),
        predicate: oxrdf::NamedNode::new("http://example.org/p").unwrap(),
        object: oxrdf::NamedNode::new("http://example.org/b").unwrap().into(),
    });
    assert_eq!(line, reference);
    assert_eq!(
        line,
        "<http://example.org/a> <http://example.org/p> <http://example.org/b> ."
    );
}

#[test]
fn text_literal_escapes() {
    let tricky = "say \"hi\"\nback\\slash\ttab\rret\u{8}bell\u{c}feed\u{1}ctl";
    let s = Statement {
        subject: named("http://example.org/a"),
        predicate: String::from("http://example.org/p"),
        object: Term::Text(String::from(tricky)),
    };
    let line = encode_statement(&s);
    let reference = oxrdf_line(oxrdf::Triple {
        subject: oxrdf::NamedNode::new("http://example.org/a").unwrap().into(),
        predicate: oxrdf::NamedNode::new("http://example.org/p").unwrap(),
        object: oxrdf::Literal::new_simple_literal(tricky).into(),
    });
    assert_eq!(line, reference);
}

#[test]
fn text_literal_unicode() {
    let text = "Pokémon flavour – été";
    let s = Statement {
        subject: named("http://example.org/a"),
        predicate: String::from("http://example.org/p"),
        object: Term::Text(String::from(text)),
    };
    let line = encode_statement(&s);
    let reference = oxrdf_line(oxrdf::Triple {
        subject: oxrdf::NamedNode::new("http://example.org/a").unwrap().into(),
        predicate: oxrdf::NamedNode::new("http://example.org/p").unwrap(),
        object: oxrdf::Literal::new_simple_literal(text).into(),
    });
    assert_eq!(line, reference);
}

#[test]
fn integer_literals() {
    for v in [0i64, 7, -13, i64::MAX, i64::MIN] {
        let s = Statement {
            subject: named("http://example.org/a"),
            predicate: String::from("http://example.org/p"),
            object: Term::Int(v),
        };
        let line = encode_statement(&s);
        let reference = oxrdf_line(oxrdf::Triple {
            subject: oxrdf::NamedNode::new("http://example.org/a").unwrap().into(),
            predicate: oxrdf::NamedNode::new("http://example.org/p").unwrap(),
            object: oxrdf::Literal::new_typed_literal(v.to_string(),
                oxrdf::vocab::xsd::INTEGER).into(),
        });
        assert_eq!(line, reference);
    }
}

#[test]
fn unsigned_literal() {
    let s = Statement {
        subject: named("http://example.org/a"),
        predicate: String::from("http://example.org/p"),
        object: Term::UInt(u64::MAX),
    };
    let line = encode_statement(&s);
    assert_eq!(
        line,
        format!(
            "<http://example.org/a> <http://example.org/p> \"{}\"^^<http://www.w3.org/2001/XMLSchema#integer> .",
            u64::MAX
        )
    );
}

#[test]
fn boolean_literals() {
    for v in [true, false] {
        let s = Statement {
            subject: named("http://example.org/a"),
            predicate: String::from("http://example.org/p"),
            object: Term::Bool(v),
        };
        let line = encode_statement(&s);
        let reference = oxrdf_line(oxrdf::Triple {
            subject: oxrdf::NamedNode::new("http://example.org/a").unwrap().into(),
            predicate: oxrdf::NamedNode::new("http://example.org/p").unwrap(),
            object: oxrdf::Literal::new_typed_literal(v.to_string(),
                oxrdf::vocab::xsd::BOOLEAN).into(),
        });
        assert_eq!(line, reference);
    }
}

#[test]
fn anonymous_subject_and_object() {
    let id = AnonId::root("berry", 3).child("flavor", 0);
    let s = Statement {
        subject: EntityRef::Anonymous(id.duplicate()),
        predicate: String::from("http://example.org/p"),
        object: Term::Entity(EntityRef::Anonymous(id)),
    };
    let line = encode_statement(&s);
    let reference = oxrdf_line(oxrdf::Triple {
        subject: oxrdf::BlankNode::new("berry3_flavor0").unwrap().into(),
        predicate: oxrdf::NamedNode::new("http://example.org/p").unwrap(),
        object: oxrdf::BlankNode::new("berry3_flavor0").unwrap().into(),
    });
    assert_eq!(line, reference);
}

#[test]
fn iri_validation_follows_reference_parser() {
    assert!(EntityRef::named(String::from("http://example.org/ok")).is_ok());
    assert!(EntityRef::named(String::from("not an iri")).is_err());
    assert!(EntityRef::named(String::from("")).is_err());
    assert!(EntityRef::named(String::from("relative/path")).is_err());
}
