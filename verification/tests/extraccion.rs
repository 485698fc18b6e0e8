use fft::extraccion::{extraer_impares, extraer_pares};

#[test]
fn pares_de_ocho_muestras() {
    let v = vec![0, 1, 2, 3, 4, 5, 6, 7];
    assert_eq!(extraer_pares(&v), vec![0, 2, 4, 6]);
}

#[test]
fn impares_de_ocho_muestras() {
    let v = vec![0, 1, 2, 3, 4, 5, 6, 7];
    assert_eq!(extraer_impares(&v), vec![1, 3, 5, 7]);
}

#[test]
fn pares_de_entrada_vacia() {
    let v: Vec<i32> = vec![];
    assert_eq!(extraer_pares(&v), Vec::<i32>::new());
}

#[test]
fn impares_de_entrada_vacia() {
    let v: Vec<i32> = vec![];
    assert_eq!(extraer_impares(&v), Vec::<i32>::new());
}

#[test]
fn extraccion_de_un_elemento() {
    let v = vec![5];
    assert_eq!(extraer_pares(&v), vec![5]);
    assert_eq!(extraer_impares(&v), Vec::<i32>::new());
}

#[test]
fn extraccion_de_longitud_impar() {
    let v = vec![10, 20, 30];
    assert_eq!(extraer_pares(&v), vec![10, 30]);
    assert_eq!(extraer_impares(&v), vec![20]);
}

#[test]
fn extraccion_conserva_el_orden_relativo() {
    let v = vec![7, -1, 7, -2, 7, -3];
    assert_eq!(extraer_pares(&v), vec![7, 7, 7]);
    assert_eq!(extraer_impares(&v), vec![-1, -2, -3]);
}

#[test]
fn particion_cubre_toda_la_entrada() {
    let v = vec![4, 8, 15, 16, 23, 42, 8, 9];
    let pares = extraer_pares(&v);
    let impares = extraer_impares(&v);
    assert_eq!(pares.len() + impares.len(), v.len());
    for (i, x) in v.iter().enumerate() {
        if i % 2 == 0 {
            assert_eq!(pares[i / 2], *x);
        } else {
            assert_eq!(impares[i / 2], *x);
        }
    }
}

#[test]
fn division_repetida_como_en_la_recursion() {
    let v = vec![0, 1, 2, 3, 4, 5, 6, 7];
    let nivel1 = extraer_pares(&v);
    assert_eq!(extraer_pares(&nivel1), vec![0, 4]);
    assert_eq!(extraer_impares(&nivel1), vec![2, 6]);
}

#[test]
fn extraccion_determinista() {
    let v = vec![3, 1, 4, 1, 5, 9, 2, 6];
    assert_eq!(extraer_pares(&v), extraer_pares(&v));
    assert_eq!(extraer_impares(&v), extraer_impares(&v));
}
