use sqlite_filesystem::columns::{self, Columns, CREATE_SQL};
use sqlite_filesystem::table::{
    BestIndexError, Constraint, ConstraintOperator, ConstraintUsage, ListTable, ESTIMATED_COST,
    ESTIMATED_ROWS,
};

fn on_input(usable: bool, op: Option<ConstraintOperator>) -> Constraint {
    Constraint { column_idx: 11, usable, op }
}

#[test]
fn schema_lists_the_columns_in_order() {
    let (sql, _table) = ListTable::connect();
    assert_eq!(sql, CREATE_SQL);
    assert_eq!(
        sql,
        "CREATE TABLE x(path, is_dir, bytes, is_file, created, modified, accessed, is_sym_link, readonly, extension, file_name, input hidden)"
    );
}

#[test]
fn column_lookup_follows_the_schema() {
    let expected = vec![
        Columns::Path,
        Columns::IsDir,
        Columns::Bytes,
        Columns::IsFile,
        Columns::Created,
        Columns::Modified,
        Columns::Accessed,
        Columns::IsSymLink,
        Columns::Permissions,
        Columns::Extension,
        Columns::FileName,
        Columns::Input,
    ];
    for (i, c) in expected.iter().enumerate() {
        assert_eq!(columns::column(i as i32), Some(*c));
    }
    assert_eq!(columns::column(12), None);
    assert_eq!(columns::column(-1), None);
    assert_eq!(columns::column(i32::MAX), None);
    assert_eq!(columns::column(i32::MIN), None);
}

#[test]
fn usable_equality_on_input_gives_the_plan() {
    let table = ListTable {};
    let plan = table.best_index(&vec![on_input(true, Some(ConstraintOperator::EQ))]).unwrap();
    assert_eq!(plan.usages, vec![ConstraintUsage { omit: true, argv_index: 1 }]);
    assert_eq!(plan.estimated_cost, 100000);
    assert_eq!(plan.estimated_rows, 100000);
    assert_eq!(plan.idxnum, 1);
    assert_eq!(ESTIMATED_COST, 100000);
    assert_eq!(ESTIMATED_ROWS, 100000);
}

#[test]
fn every_offered_input_equality_is_bound() {
    let table = ListTable {};
    let eq = on_input(true, Some(ConstraintOperator::EQ));
    let plan = table.best_index(&vec![eq, eq]).unwrap();
    assert_eq!(plan.usages.len(), 2);
    assert!(plan.usages.iter().all(|u| u.omit && u.argv_index == 1));
}

#[test]
fn no_constraints_is_a_planning_error() {
    let table = ListTable {};
    assert_eq!(table.best_index(&Vec::new()), Err(BestIndexError::Error));
}

#[test]
fn no_usable_equality_on_input_is_a_planning_error() {
    let table = ListTable {};
    assert_eq!(
        table.best_index(&vec![on_input(false, Some(ConstraintOperator::EQ))]),
        Err(BestIndexError::Error)
    );
    assert_eq!(
        table.best_index(&vec![on_input(true, Some(ConstraintOperator::GT))]),
        Err(BestIndexError::Error)
    );
    assert_eq!(
        table.best_index(&vec![on_input(true, Some(ConstraintOperator::FUNCTION(150)))]),
        Err(BestIndexError::Error)
    );
    assert_eq!(table.best_index(&vec![on_input(true, None)]), Err(BestIndexError::Error));
    assert_eq!(
        table.best_index(&vec![
            on_input(false, Some(ConstraintOperator::EQ)),
            on_input(false, Some(ConstraintOperator::LT)),
        ]),
        Err(BestIndexError::Error)
    );
}

#[test]
fn anything_beside_the_directory_is_refused() {
    let table = ListTable {};
    let eq = on_input(true, Some(ConstraintOperator::EQ));
    assert_eq!(
        table.best_index(&vec![eq, on_input(true, Some(ConstraintOperator::GT))]),
        Err(BestIndexError::Constraint)
    );
    assert_eq!(
        table.best_index(&vec![on_input(false, Some(ConstraintOperator::EQ)), eq]),
        Err(BestIndexError::Constraint)
    );
    assert_eq!(
        table.best_index(&vec![eq, on_input(true, None), eq]),
        Err(BestIndexError::Constraint)
    );
}

#[test]
fn constraint_on_another_column_is_refused() {
    let table = ListTable {};
    for idx in [0, 1, 5, 10, 12, -1] {
        let other = Constraint { column_idx: idx, usable: true, op: Some(ConstraintOperator::EQ) };
        assert_eq!(table.best_index(&vec![other]), Err(BestIndexError::Constraint));
        let unusable = Constraint { column_idx: idx, usable: false, op: None };
        assert_eq!(table.best_index(&vec![unusable]), Err(BestIndexError::Constraint));
        let eq = on_input(true, Some(ConstraintOperator::EQ));
        assert_eq!(table.best_index(&vec![eq, other]), Err(BestIndexError::Constraint));
        assert_eq!(table.best_index(&vec![other, eq]), Err(BestIndexError::Constraint));
        assert_eq!(
            table.best_index(&vec![on_input(false, Some(ConstraintOperator::EQ)), other]),
            Err(BestIndexError::Constraint)
        );
    }
}

#[test]
fn open_gives_an_unfiltered_cursor() {
    let mut table = ListTable {};
    let cursor = table.open();
    assert!(cursor.eof());
    assert_eq!(cursor.rowid(), 0);
    assert_eq!(cursor.position(), 0);
    table.destroy();
}
