use jvm::descriptor::{parse_descriptor, MethodSignature};
use jvm::method::ReturnKind;

fn parse(s: &str) -> Option<MethodSignature> {
    parse_descriptor(&s.as_bytes().to_vec())
}

#[test]
fn descriptor_counts_cells() {
    assert_eq!(parse("()V"), Some(MethodSignature { arg_slots: 0, ret: ReturnKind::Void }));
    assert_eq!(parse("(I)I"), Some(MethodSignature { arg_slots: 1, ret: ReturnKind::Single }));
    assert_eq!(parse("(JD)J"), Some(MethodSignature { arg_slots: 4, ret: ReturnKind::Double }));
    assert_eq!(
        parse("([Ljava/lang/String;)V"),
        Some(MethodSignature { arg_slots: 1, ret: ReturnKind::Void })
    );
    assert_eq!(
        parse("(ILjava/lang/Object;[[JZ)D"),
        Some(MethodSignature { arg_slots: 4, ret: ReturnKind::Double })
    );
    assert_eq!(
        parse("(Ljava/lang/Throwable;)V"),
        Some(MethodSignature { arg_slots: 1, ret: ReturnKind::Void })
    );
}

#[test]
fn malformed_descriptors_are_refused() {
    assert_eq!(parse(""), None);
    assert_eq!(parse("I)V"), None);
    assert_eq!(parse("(I"), None);
    assert_eq!(parse("(L;)V"), None);
    assert_eq!(parse("(Ljava/lang/String)V"), None);
    assert_eq!(parse("()VV"), None);
    assert_eq!(parse("(Q)V"), None);
    assert_eq!(parse("(V)V"), None);
}
