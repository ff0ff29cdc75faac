use with_tempdir_procmacro::{
    check_function_declaration, check_type, CheckError, FnArgShape, Function, TypeShape,
};

fn path_reference() -> TypeShape {
    TypeShape::Reference {
        mutable: false,
        elem: Box::new(TypeShape::Path { last_segment: String::from("Path") }),
    }
}

fn function_with_inputs(inputs: Vec<FnArgShape>) -> Function {
    Function {
        attrs: vec![String::from("#[test]")],
        vis: None,
        constness: false,
        asyncness: false,
        unsafety: false,
        abi: None,
        name: String::from("my_test"),
        inputs,
        body: String::from("{ }"),
    }
}

#[test]
fn accepts_a_path_reference() {
    assert_eq!(check_type(&path_reference()), None);
}

#[test]
fn rejects_a_mutable_reference() {
    let ty = TypeShape::Reference {
        mutable: true,
        elem: Box::new(TypeShape::Path { last_segment: String::from("Path") }),
    };
    assert_eq!(check_type(&ty), Some(CheckError::NotAReference));
}

#[test]
fn rejects_a_bare_path_type() {
    let ty = TypeShape::Path { last_segment: String::from("Path") };
    assert_eq!(check_type(&ty), Some(CheckError::NotAReference));
}

#[test]
fn rejects_a_reference_to_another_path() {
    let ty = TypeShape::Reference {
        mutable: false,
        elem: Box::new(TypeShape::Path { last_segment: String::from("PathBuf") }),
    };
    assert_eq!(check_type(&ty), Some(CheckError::WrongType));
}

#[test]
fn rejects_a_reference_to_a_reference() {
    let ty = TypeShape::Reference { mutable: false, elem: Box::new(path_reference()) };
    assert_eq!(check_type(&ty), Some(CheckError::WrongType));
}

#[test]
fn rejects_a_reference_to_some_other_type() {
    let ty = TypeShape::Reference { mutable: false, elem: Box::new(TypeShape::Other) };
    assert_eq!(check_type(&ty), Some(CheckError::WrongType));
}

#[test]
fn rejected_and_accepted_declarations() {
    // A function with no argument is rejected.
    let no_arg = function_with_inputs(Vec::new());
    assert_eq!(
        check_function_declaration(&no_arg),
        Some(CheckError::WrongArgumentCount)
    );

    // A function whose argument has the wrong type is rejected.
    let wrong_type = function_with_inputs(vec![FnArgShape::Captured {
        text: String::from("path: PathBuf"),
        ty: TypeShape::Path { last_segment: String::from("PathBuf") },
    }]);
    assert_eq!(
        check_function_declaration(&wrong_type),
        Some(CheckError::NotAReference)
    );

    // A function whose argument is a reference to the wrong type is rejected.
    let wrong_ref_type = function_with_inputs(vec![FnArgShape::Captured {
        text: String::from("path: &PathBuf"),
        ty: TypeShape::Reference {
            mutable: false,
            elem: Box::new(TypeShape::Path { last_segment: String::from("PathBuf") }),
        },
    }]);
    assert_eq!(
        check_function_declaration(&wrong_ref_type),
        Some(CheckError::WrongType)
    );

    // A function taking one `&Path` argument is accepted.
    let working = function_with_inputs(vec![FnArgShape::Captured {
        text: String::from("path: &Path"),
        ty: path_reference(),
    }]);
    assert_eq!(check_function_declaration(&working), None);
}

#[test]
fn rejects_two_arguments() {
    let two = function_with_inputs(vec![
        FnArgShape::Captured { text: String::from("path: &Path"), ty: path_reference() },
        FnArgShape::Captured { text: String::from("n: usize"), ty: TypeShape::Other },
    ]);
    assert_eq!(
        check_function_declaration(&two),
        Some(CheckError::WrongArgumentCount)
    );
}

#[test]
fn rejects_a_receiver_argument() {
    let receiver = function_with_inputs(vec![FnArgShape::Other(String::from("&self"))]);
    assert_eq!(
        check_function_declaration(&receiver),
        Some(CheckError::UnsupportedArgument)
    );
}

#[test]
fn diagnostic_texts() {
    assert_eq!(
        CheckError::NotAReference.message(),
        "First argument of the function must be a reference on type `std::path::Path`"
    );
    assert_eq!(
        CheckError::WrongType.message(),
        "First argument of the function must be of type `&std::path::Path`"
    );
    assert_eq!(
        CheckError::UnsupportedArgument.message(),
        "First argument of the function must be of type `&std::path::Path`"
    );
    assert_eq!(
        CheckError::WrongArgumentCount.message(),
        "Function must take one argument of type `&std::path::Path`"
    );
}
