use present_loop::models::SquareModel;

#[test]
fn it_works() {
    let result = 2 + 2;
    assert_eq!(result, 4);
}

#[test]
fn square_indices_form_two_triangles() {
    assert_eq!(SquareModel::get_indices(), vec![0, 1, 2, 1, 2, 3]);
}
