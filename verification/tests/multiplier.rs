use rslang::{
    AssertionKind, BinaryOp, Design, Edge, EventControl, Expr,
    PortDirection, ProcedureKind, SignalKind, Stmt,
};

/// AST JSON of the multiplier design in `tests/fvbench/multiplier/multiplier.sv`,
/// in the form that `slang --quiet --ast-json - --ast-json-source-info` prints.
const MULTIPLIER_AST: &str = r#"{
 "design": {
  "name": "$root",
  "kind": "Root",
  "members": [
   {
    "name": "",
    "kind": "CompilationUnit"
   },
   {
    "name": "multiplier",
    "kind": "Instance",
    "source_file": "multiplier.sv",
    "source_line": 1,
    "source_column": 8,
    "body": {
     "name": "multiplier",
     "kind": "InstanceBody",
     "source_file": "multiplier.sv",
     "source_line": 1,
     "source_column": 8,
     "members": [
      {
       "name": "WL",
       "kind": "Parameter",
       "type": "int",
       "value": "16",
       "isLocal": false,
       "isPort": true,
       "initializer": {
        "kind": "IntegerLiteral",
        "type": "int",
        "value": "16",
        "constant": "16",
        "source_file_start": "multiplier.sv",
        "source_line_start": 1,
        "source_column_start": 25,
        "source_file_end": "multiplier.sv",
        "source_line_end": 1,
        "source_column_end": 27
       },
       "source_file": "multiplier.sv",
       "source_line": 1,
       "source_column": 22
      },
      {
       "name": "WS",
       "kind": "Parameter",
       "type": "int",
       "value": "8",
       "isLocal": false,
       "isPort": true,
       "initializer": {
        "kind": "IntegerLiteral",
        "type": "int",
        "value": "8",
        "constant": "8",
        "source_file_start": "multiplier.sv",
        "source_line_start": 1,
        "source_column_start": 38,
        "source_file_end": "multiplier.sv",
        "source_line_end": 1,
        "source_column_end": 39
       },
       "source_file": "multiplier.sv",
       "source_line": 1,
       "source_column": 35
      },
      {
       "name": "clk",
       "kind": "Port",
       "type": "logic",
       "direction": "In",
       "internalSymbol": "101 clk",
       "source_file": "multiplier.sv",
       "source_line": 2,
       "source_column": 20
      },
      {
       "name": "clk",
       "kind": "Net",
       "type": "logic",
       "netType": {
        "name": "wire",
        "kind": "NetType",
        "type": "logic"
       },
       "source_file": "multiplier.sv",
       "source_line": 2,
       "source_column": 20
      },
      {
       "name": "rst",
       "kind": "Port",
       "type": "logic",
       "direction": "In",
       "internalSymbol": "102 rst",
       "source_file": "multiplier.sv",
       "source_line": 3,
       "source_column": 20
      },
      {
       "name": "rst",
       "kind": "Net",
       "type": "logic",
       "netType": {
        "name": "wire",
        "kind": "NetType",
        "type": "logic"
       },
       "source_file": "multiplier.sv",
       "source_line": 3,
       "source_column": 20
      },
      {
       "name": "ix",
       "kind": "Port",
       "type": "logic[7:0]",
       "direction": "In",
       "internalSymbol": "103 ix",
       "source_file": "multiplier.sv",
       "source_line": 4,
       "source_column": 20
      },
      {
       "name": "ix",
       "kind": "Net",
       "type": "logic[7:0]",
       "netType": {
        "name": "wire",
        "kind": "NetType",
        "type": "logic"
       },
       "source_file": "multiplier.sv",
       "source_line": 4,
       "source_column": 20
      },
      {
       "name": "iy",
       "kind": "Port",
       "type": "logic[7:0]",
       "direction": "In",
       "internalSymbol": "104 iy",
       "source_file": "multiplier.sv",
       "source_line": 5,
       "source_column": 20
      },
      {
       "name": "iy",
       "kind": "Net",
       "type": "logic[7:0]",
       "netType": {
        "name": "wire",
        "kind": "NetType",
        "type": "logic"
       },
       "source_file": "multiplier.sv",
       "source_line": 5,
       "source_column": 20
      },
      {
       "name": "oa",
       "kind": "Port",
       "type": "logic[15:0]",
       "direction": "Out",
       "internalSymbol": "105 oa",
       "source_file": "multiplier.sv",
       "source_line": 6,
       "source_column": 20
      },
      {
       "name": "oa",
       "kind": "Net",
       "type": "logic[15:0]",
       "netType": {
        "name": "wire",
        "kind": "NetType",
        "type": "logic"
       },
       "source_file": "multiplier.sv",
       "source_line": 6,
       "source_column": 20
      },
      {
       "name": "ob",
       "kind": "Port",
       "type": "logic[15:0]",
       "direction": "Out",
       "internalSymbol": "106 ob",
       "source_file": "multiplier.sv",
       "source_line": 7,
       "source_column": 20
      },
      {
       "name": "ob",
       "kind": "Net",
       "type": "logic[15:0]",
       "netType": {
        "name": "wire",
        "kind": "NetType",
        "type": "logic"
       },
       "source_file": "multiplier.sv",
       "source_line": 7,
       "source_column": 20
      },
      {
       "name": "x",
       "kind": "Variable",
       "type": "logic[15:0]",
       "lifetime": "Static",
       "source_file": "multiplier.sv",
       "source_line": 9,
       "source_column": 17
      },
      {
       "name": "y",
       "kind": "Variable",
       "type": "logic[15:0]",
       "lifetime": "Static",
       "source_file": "multiplier.sv",
       "source_line": 10,
       "source_column": 17
      },
      {
       "name": "ma",
       "kind": "Variable",
       "type": "logic[15:0]",
       "lifetime": "Static",
       "source_file": "multiplier.sv",
       "source_line": 11,
       "source_column": 17
      },
      {
       "name": "mb",
       "kind": "Variable",
       "type": "logic[15:0]",
       "lifetime": "Static",
       "source_file": "multiplier.sv",
       "source_line": 12,
       "source_column": 17
      },
      {
       "name": "na",
       "kind": "Variable",
       "type": "logic[15:0]",
       "lifetime": "Static",
       "source_file": "multiplier.sv",
       "source_line": 13,
       "source_column": 17
      },
      {
       "name": "nb",
       "kind": "Variable",
       "type": "logic[15:0]",
       "lifetime": "Static",
       "source_file": "multiplier.sv",
       "source_line": 14,
       "source_column": 17
      },
      {
       "name": "nc",
       "kind": "Variable",
       "type": "logic[15:0]",
       "lifetime": "Static",
       "source_file": "multiplier.sv",
       "source_line": 15,
       "source_column": 17
      },
      {
       "name": "nd",
       "kind": "Variable",
       "type": "logic[15:0]",
       "lifetime": "Static",
       "source_file": "multiplier.sv",
       "source_line": 16,
       "source_column": 17
      },
      {
       "name": "",
       "kind": "ProceduralBlock",
       "procedureKind": "Always",
       "body": {
        "kind": "Timed",
        "timing": {
         "kind": "SignalEvent",
         "expr": {
          "kind": "NamedValue",
          "type": "logic",
          "symbol": "101 clk",
          "source_file_start": "multiplier.sv",
          "source_line_start": 18,
          "source_column_start": 18,
          "source_file_end": "multiplier.sv",
          "source_line_end": 18,
          "source_column_end": 21
         },
         "edge": "PosEdge",
         "source_file_start": "multiplier.sv",
         "source_line_start": 18,
         "source_column_start": 12,
         "source_file_end": "multiplier.sv",
         "source_line_end": 18,
         "source_column_end": 22
        },
        "stmt": {
         "kind": "Block",
         "blockKind": "Sequential",
         "body": {
          "kind": "Conditional",
          "check": "None",
          "conditions": [
           {
            "expr": {
             "kind": "NamedValue",
             "type": "logic",
             "symbol": "102 rst",
             "source_file_start": "multiplier.sv",
             "source_line_start": 19,
             "source_column_start": 9,
             "source_file_end": "multiplier.sv",
             "source_line_end": 19,
             "source_column_end": 12
            }
           }
          ],
          "ifTrue": {
           "kind": "Block",
           "blockKind": "Sequential",
           "body": {
            "kind": "List",
            "list": [
             {
              "kind": "ExpressionStatement",
              "expr": {
               "kind": "Assignment",
               "type": "logic[15:0]",
               "left": {
                "kind": "NamedValue",
                "type": "logic[15:0]",
                "symbol": "107 x",
                "source_file_start": "multiplier.sv",
                "source_line_start": 20,
                "source_column_start": 13,
                "source_file_end": "multiplier.sv",
                "source_line_end": 20,
                "source_column_end": 14
               },
               "right": {
                "kind": "Conversion",
                "type": "logic[15:0]",
                "operand": {
                 "kind": "IntegerLiteral",
                 "type": "int",
                 "value": "0",
                 "constant": "0",
                 "source_file_start": "multiplier.sv",
                 "source_line_start": 20,
                 "source_column_start": 19,
                 "source_file_end": "multiplier.sv",
                 "source_line_end": 20,
                 "source_column_end": 20
                }
               },
               "isNonBlocking": true,
               "source_file_start": "multiplier.sv",
               "source_line_start": 20,
               "source_column_start": 7,
               "source_file_end": "multiplier.sv",
               "source_line_end": 20,
               "source_column_end": 30
              },
              "source_file_start": "multiplier.sv",
              "source_line_start": 20,
              "source_column_start": 7,
              "source_file_end": "multiplier.sv",
              "source_line_end": 20,
              "source_column_end": 31
             },
             {
              "kind": "ExpressionStatement",
              "expr": {
               "kind": "Assignment",
               "type": "logic[15:0]",
               "left": {
                "kind": "NamedValue",
                "type": "logic[15:0]",
                "symbol": "108 y",
                "source_file_start": "multiplier.sv",
                "source_line_start": 21,
                "source_column_start": 13,
                "source_file_end": "multiplier.sv",
                "source_line_end": 21,
                "source_column_end": 14
               },
               "right": {
                "kind": "Conversion",
                "type": "logic[15:0]",
                "operand": {
                 "kind": "IntegerLiteral",
                 "type": "int",
                 "value": "0",
                 "constant": "0",
                 "source_file_start": "multiplier.sv",
                 "source_line_start": 21,
                 "source_column_start": 19,
                 "source_file_end": "multiplier.sv",
                 "source_line_end": 21,
                 "source_column_end": 20
                }
               },
               "isNonBlocking": true,
               "source_file_start": "multiplier.sv",
               "source_line_start": 21,
               "source_column_start": 7,
               "source_file_end": "multiplier.sv",
               "source_line_end": 21,
               "source_column_end": 30
              },
              "source_file_start": "multiplier.sv",
              "source_line_start": 21,
              "source_column_start": 7,
              "source_file_end": "multiplier.sv",
              "source_line_end": 21,
              "source_column_end": 31
             },
             {
              "kind": "ExpressionStatement",
              "expr": {
               "kind": "Assignment",
               "type": "logic[15:0]",
               "left": {
                "kind": "NamedValue",
                "type": "logic[15:0]",
                "symbol": "109 ma",
                "source_file_start": "multiplier.sv",
                "source_line_start": 22,
                "source_column_start": 13,
                "source_file_end": "multiplier.sv",
                "source_line_end": 22,
                "source_column_end": 15
               },
               "right": {
                "kind": "Conversion",
                "type": "logic[15:0]",
                "operand": {
                 "kind": "IntegerLiteral",
                 "type": "int",
                 "value": "0",
                 "constant": "0",
                 "source_file_start": "multiplier.sv",
                 "source_line_start": 22,
                 "source_column_start": 19,
                 "source_file_end": "multiplier.sv",
                 "source_line_end": 22,
                 "source_column_end": 20
                }
               },
               "isNonBlocking": true,
               "source_file_start": "multiplier.sv",
               "source_line_start": 22,
               "source_column_start": 7,
               "source_file_end": "multiplier.sv",
               "source_line_end": 22,
               "source_column_end": 30
              },
              "source_file_start": "multiplier.sv",
              "source_line_start": 22,
              "source_column_start": 7,
              "source_file_end": "multiplier.sv",
              "source_line_end": 22,
              "source_column_end": 31
             },
             {
              "kind": "ExpressionStatement",
              "expr": {
               "kind": "Assignment",
               "type": "logic[15:0]",
               "left": {
                "kind": "NamedValue",
                "type": "logic[15:0]",
                "symbol": "110 mb",
                "source_file_start": "multiplier.sv",
                "source_line_start": 23,
                "source_column_start": 13,
                "source_file_end": "multiplier.sv",
                "source_line_end": 23,
                "source_column_end": 15
               },
               "right": {
                "kind": "Conversion",
                "type": "logic[15:0]",
                "operand": {
                 "kind": "IntegerLiteral",
                 "type": "int",
                 "value": "0",
                 "constant": "0",
                 "source_file_start": "multiplier.sv",
                 "source_line_start": 23,
                 "source_column_start": 19,
                 "source_file_end": "multiplier.sv",
                 "source_line_end": 23,
                 "source_column_end": 20
                }
               },
               "isNonBlocking": true,
               "source_file_start": "multiplier.sv",
               "source_line_start": 23,
               "source_column_start": 7,
               "source_file_end": "multiplier.sv",
               "source_line_end": 23,
               "source_column_end": 30
              },
              "source_file_start": "multiplier.sv",
              "source_line_start": 23,
              "source_column_start": 7,
              "source_file_end": "multiplier.sv",
              "source_line_end": 23,
              "source_column_end": 31
             },
             {
              "kind": "ExpressionStatement",
              "expr": {
               "kind": "Assignment",
               "type": "logic[15:0]",
               "left": {
                "kind": "NamedValue",
                "type": "logic[15:0]",
                "symbol": "111 na",
                "source_file_start": "multiplier.sv",
                "source_line_start": 24,
                "source_column_start": 13,
                "source_file_end": "multiplier.sv",
                "source_line_end": 24,
                "source_column_end": 15
               },
               "right": {
                "kind": "Conversion",
                "type": "logic[15:0]",
                "operand": {
                 "kind": "IntegerLiteral",
                 "type": "int",
                 "value": "0",
                 "constant": "0",
                 "source_file_start": "multiplier.sv",
                 "source_line_start": 24,
                 "source_column_start": 19,
                 "source_file_end": "multiplier.sv",
                 "source_line_end": 24,
                 "source_column_end": 20
                }
               },
               "isNonBlocking": true,
               "source_file_start": "multiplier.sv",
               "source_line_start": 24,
               "source_column_start": 7,
               "source_file_end": "multiplier.sv",
               "source_line_end": 24,
               "source_column_end": 30
              },
              "source_file_start": "multiplier.sv",
              "source_line_start": 24,
              "source_column_start": 7,
              "source_file_end": "multiplier.sv",
              "source_line_end": 24,
              "source_column_end": 31
             },
             {
              "kind": "ExpressionStatement",
              "expr": {
               "kind": "Assignment",
               "type": "logic[15:0]",
               "left": {
                "kind": "NamedValue",
                "type": "logic[15:0]",
                "symbol": "112 nb",
                "source_file_start": "multiplier.sv",
                "source_line_start": 25,
                "source_column_start": 13,
                "source_file_end": "multiplier.sv",
                "source_line_end": 25,
                "source_column_end": 15
               },
               "right": {
                "kind": "Conversion",
                "type": "logic[15:0]",
                "operand": {
                 "kind": "IntegerLiteral",
                 "type": "int",
                 "value": "0",
                 "constant": "0",
                 "source_file_start": "multiplier.sv",
                 "source_line_start": 25,
                 "source_column_start": 19,
                 "source_file_end": "multiplier.sv",
                 "source_line_end": 25,
                 "source_column_end": 20
                }
               },
               "isNonBlocking": true,
               "source_file_start": "multiplier.sv",
               "source_line_start": 25,
               "source_column_start": 7,
               "source_file_end": "multiplier.sv",
               "source_line_end": 25,
               "source_column_end": 30
              },
              "source_file_start": "multiplier.sv",
              "source_line_start": 25,
              "source_column_start": 7,
              "source_file_end": "multiplier.sv",
              "source_line_end": 25,
              "source_column_end": 31
             },
             {
              "kind": "ExpressionStatement",
              "expr": {
               "kind": "Assignment",
               "type": "logic[15:0]",
               "left": {
                "kind": "NamedValue",
                "type": "logic[15:0]",
                "symbol": "113 nc",
                "source_file_start": "multiplier.sv",
                "source_line_start": 26,
                "source_column_start": 13,
                "source_file_end": "multiplier.sv",
                "source_line_end": 26,
                "source_column_end": 15
               },
               "right": {
                "kind": "Conversion",
                "type": "logic[15:0]",
                "operand": {
                 "kind": "IntegerLiteral",
                 "type": "int",
                 "value": "0",
                 "constant": "0",
                 "source_file_start": "multiplier.sv",
                 "source_line_start": 26,
                 "source_column_start": 19,
                 "source_file_end": "multiplier.sv",
                 "source_line_end": 26,
                 "source_column_end": 20
                }
               },
               "isNonBlocking": true,
               "source_file_start": "multiplier.sv",
               "source_line_start": 26,
               "source_column_start": 7,
               "source_file_end": "multiplier.sv",
               "source_line_end": 26,
               "source_column_end": 30
              },
              "source_file_start": "multiplier.sv",
              "source_line_start": 26,
              "source_column_start": 7,
              "source_file_end": "multiplier.sv",
              "source_line_end": 26,
              "source_column_end": 31
             },
             {
              "kind": "ExpressionStatement",
              "expr": {
               "kind": "Assignment",
               "type": "logic[15:0]",
               "left": {
                "kind": "NamedValue",
                "type": "logic[15:0]",
                "symbol": "114 nd",
                "source_file_start": "multiplier.sv",
                "source_line_start": 27,
                "source_column_start": 13,
                "source_file_end": "multiplier.sv",
                "source_line_end": 27,
                "source_column_end": 15
               },
               "right": {
                "kind": "Conversion",
                "type": "logic[15:0]",
                "operand": {
                 "kind": "IntegerLiteral",
                 "type": "int",
                 "value": "0",
                 "constant": "0",
                 "source_file_start": "multiplier.sv",
                 "source_line_start": 27,
                 "source_column_start": 19,
                 "source_file_end": "multiplier.sv",
                 "source_line_end": 27,
                 "source_column_end": 20
                }
               },
               "isNonBlocking": true,
               "source_file_start": "multiplier.sv",
               "source_line_start": 27,
               "source_column_start": 7,
               "source_file_end": "multiplier.sv",
               "source_line_end": 27,
               "source_column_end": 30
              },
              "source_file_start": "multiplier.sv",
              "source_line_start": 27,
              "source_column_start": 7,
              "source_file_end": "multiplier.sv",
              "source_line_end": 27,
              "source_column_end": 31
             }
            ]
           },
           "source_file_start": "multiplier.sv",
           "source_line_start": 19,
           "source_column_start": 5,
           "source_file_end": "multiplier.sv",
           "source_line_end": 19,
           "source_column_end": 60
          },
          "ifFalse": {
           "kind": "Block",
           "blockKind": "Sequential",
           "body": {
            "kind": "List",
            "list": [
             {
              "kind": "ExpressionStatement",
              "expr": {
               "kind": "Assignment",
               "type": "logic[15:0]",
               "left": {
                "kind": "NamedValue",
                "type": "logic[15:0]",
                "symbol": "107 x",
                "source_file_start": "multiplier.sv",
                "source_line_start": 30,
                "source_column_start": 13,
                "source_file_end": "multiplier.sv",
                "source_line_end": 30,
                "source_column_end": 14
               },
               "right": {
                "kind": "Conversion",
                "type": "logic[15:0]",
                "operand": {
                 "kind": "NamedValue",
                 "type": "logic[7:0]",
                 "symbol": "103 ix",
                 "source_file_start": "multiplier.sv",
                 "source_line_start": 30,
                 "source_column_start": 19,
                 "source_file_end": "multiplier.sv",
                 "source_line_end": 30,
                 "source_column_end": 21
                }
               },
               "isNonBlocking": true,
               "source_file_start": "multiplier.sv",
               "source_line_start": 30,
               "source_column_start": 7,
               "source_file_end": "multiplier.sv",
               "source_line_end": 30,
               "source_column_end": 30
              },
              "source_file_start": "multiplier.sv",
              "source_line_start": 30,
              "source_column_start": 7,
              "source_file_end": "multiplier.sv",
              "source_line_end": 30,
              "source_column_end": 31
             },
             {
              "kind": "ExpressionStatement",
              "expr": {
               "kind": "Assignment",
               "type": "logic[15:0]",
               "left": {
                "kind": "NamedValue",
                "type": "logic[15:0]",
                "symbol": "108 y",
                "source_file_start": "multiplier.sv",
                "source_line_start": 31,
                "source_column_start": 13,
                "source_file_end": "multiplier.sv",
                "source_line_end": 31,
                "source_column_end": 14
               },
               "right": {
                "kind": "Conversion",
                "type": "logic[15:0]",
                "operand": {
                 "kind": "NamedValue",
                 "type": "logic[7:0]",
                 "symbol": "104 iy",
                 "source_file_start": "multiplier.sv",
                 "source_line_start": 31,
                 "source_column_start": 19,
                 "source_file_end": "multiplier.sv",
                 "source_line_end": 31,
                 "source_column_end": 21
                }
               },
               "isNonBlocking": true,
               "source_file_start": "multiplier.sv",
               "source_line_start": 31,
               "source_column_start": 7,
               "source_file_end": "multiplier.sv",
               "source_line_end": 31,
               "source_column_end": 30
              },
              "source_file_start": "multiplier.sv",
              "source_line_start": 31,
              "source_column_start": 7,
              "source_file_end": "multiplier.sv",
              "source_line_end": 31,
              "source_column_end": 31
             },
             {
              "kind": "ExpressionStatement",
              "expr": {
               "kind": "Assignment",
               "type": "logic[15:0]",
               "left": {
                "kind": "NamedValue",
                "type": "logic[15:0]",
                "symbol": "109 ma",
                "source_file_start": "multiplier.sv",
                "source_line_start": 32,
                "source_column_start": 13,
                "source_file_end": "multiplier.sv",
                "source_line_end": 32,
                "source_column_end": 15
               },
               "right": {
                "kind": "BinaryOp",
                "type": "logic[15:0]",
                "op": "Multiply",
                "left": {
                 "kind": "NamedValue",
                 "type": "logic[15:0]",
                 "symbol": "107 x",
                 "source_file_start": "multiplier.sv",
                 "source_line_start": 32,
                 "source_column_start": 19,
                 "source_file_end": "multiplier.sv",
                 "source_line_end": 32,
                 "source_column_end": 20
                },
                "right": {
                 "kind": "NamedValue",
                 "type": "logic[15:0]",
                 "symbol": "108 y",
                 "source_file_start": "multiplier.sv",
                 "source_line_start": 32,
                 "source_column_start": 23,
                 "source_file_end": "multiplier.sv",
                 "source_line_end": 32,
                 "source_column_end": 24
                },
                "source_file_start": "multiplier.sv",
                "source_line_start": 32,
                "source_column_start": 19,
                "source_file_end": "multiplier.sv",
                "source_line_end": 32,
                "source_column_end": 29
               },
               "isNonBlocking": true,
               "source_file_start": "multiplier.sv",
               "source_line_start": 32,
               "source_column_start": 7,
               "source_file_end": "multiplier.sv",
               "source_line_end": 32,
               "source_column_end": 30
              },
              "source_file_start": "multiplier.sv",
              "source_line_start": 32,
              "source_column_start": 7,
              "source_file_end": "multiplier.sv",
              "source_line_end": 32,
              "source_column_end": 31
             },
             {
              "kind": "ExpressionStatement",
              "expr": {
               "kind": "Assignment",
               "type": "logic[15:0]",
               "left": {
                "kind": "NamedValue",
                "type": "logic[15:0]",
                "symbol": "111 na",
                "source_file_start": "multiplier.sv",
                "source_line_start": 33,
                "source_column_start": 13,
                "source_file_end": "multiplier.sv",
                "source_line_end": 33,
                "source_column_end": 15
               },
               "right": {
                "kind": "BinaryOp",
                "type": "logic[15:0]",
                "op": "Add",
                "left": {
                 "kind": "NamedValue",
                 "type": "logic[15:0]",
                 "symbol": "107 x",
                 "source_file_start": "multiplier.sv",
                 "source_line_start": 33,
                 "source_column_start": 19,
                 "source_file_end": "multiplier.sv",
                 "source_line_end": 33,
                 "source_column_end": 20
                },
                "right": {
                 "kind": "NamedValue",
                 "type": "logic[15:0]",
                 "symbol": "107 x",
                 "source_file_start": "multiplier.sv",
                 "source_line_start": 33,
                 "source_column_start": 23,
                 "source_file_end": "multiplier.sv",
                 "source_line_end": 33,
                 "source_column_end": 24
                },
                "source_file_start": "multiplier.sv",
                "source_line_start": 33,
                "source_column_start": 19,
                "source_file_end": "multiplier.sv",
                "source_line_end": 33,
                "source_column_end": 29
               },
               "isNonBlocking": true,
               "source_file_start": "multiplier.sv",
               "source_line_start": 33,
               "source_column_start": 7,
               "source_file_end": "multiplier.sv",
               "source_line_end": 33,
               "source_column_end": 30
              },
              "source_file_start": "multiplier.sv",
              "source_line_start": 33,
              "source_column_start": 7,
              "source_file_end": "multiplier.sv",
              "source_line_end": 33,
              "source_column_end": 31
             },
             {
              "kind": "ExpressionStatement",
              "expr": {
               "kind": "Assignment",
               "type": "logic[15:0]",
               "left": {
                "kind": "NamedValue",
                "type": "logic[15:0]",
                "symbol": "112 nb",
                "source_file_start": "multiplier.sv",
                "source_line_start": 34,
                "source_column_start": 13,
                "source_file_end": "multiplier.sv",
                "source_line_end": 34,
                "source_column_end": 15
               },
               "right": {
                "kind": "BinaryOp",
                "type": "logic[15:0]",
                "op": "Multiply",
                "left": {
                 "kind": "NamedValue",
                 "type": "logic[15:0]",
                 "symbol": "108 y",
                 "source_file_start": "multiplier.sv",
                 "source_line_start": 34,
                 "source_column_start": 19,
                 "source_file_end": "multiplier.sv",
                 "source_line_end": 34,
                 "source_column_end": 20
                },
                "right": {
                 "kind": "IntegerLiteral",
                 "type": "int",
                 "value": "2",
                 "constant": "2",
                 "source_file_start": "multiplier.sv",
                 "source_line_start": 34,
                 "source_column_start": 23,
                 "source_file_end": "multiplier.sv",
                 "source_line_end": 34,
                 "source_column_end": 24
                },
                "source_file_start": "multiplier.sv",
                "source_line_start": 34,
                "source_column_start": 19,
                "source_file_end": "multiplier.sv",
                "source_line_end": 34,
                "source_column_end": 29
               },
               "isNonBlocking": true,
               "source_file_start": "multiplier.sv",
               "source_line_start": 34,
               "source_column_start": 7,
               "source_file_end": "multiplier.sv",
               "source_line_end": 34,
               "source_column_end": 30
              },
              "source_file_start": "multiplier.sv",
              "source_line_start": 34,
              "source_column_start": 7,
              "source_file_end": "multiplier.sv",
              "source_line_end": 34,
              "source_column_end": 31
             },
             {
              "kind": "ExpressionStatement",
              "expr": {
               "kind": "Assignment",
               "type": "logic[15:0]",
               "left": {
                "kind": "NamedValue",
                "type": "logic[15:0]",
                "symbol": "113 nc",
                "source_file_start": "multiplier.sv",
                "source_line_start": 35,
                "source_column_start": 13,
                "source_file_end": "multiplier.sv",
                "source_line_end": 35,
                "source_column_end": 15
               },
               "right": {
                "kind": "BinaryOp",
                "type": "logic[15:0]",
                "op": "Subtract",
                "left": {
                 "kind": "NamedValue",
                 "type": "logic[15:0]",
                 "symbol": "111 na",
                 "source_file_start": "multiplier.sv",
                 "source_line_start": 35,
                 "source_column_start": 19,
                 "source_file_end": "multiplier.sv",
                 "source_line_end": 35,
                 "source_column_end": 21
                },
                "right": {
                 "kind": "NamedValue",
                 "type": "logic[15:0]",
                 "symbol": "112 nb",
                 "source_file_start": "multiplier.sv",
                 "source_line_start": 35,
                 "source_column_start": 24,
                 "source_file_end": "multiplier.sv",
                 "source_line_end": 35,
                 "source_column_end": 26
                },
                "source_file_start": "multiplier.sv",
                "source_line_start": 35,
                "source_column_start": 19,
                "source_file_end": "multiplier.sv",
                "source_line_end": 35,
                "source_column_end": 29
               },
               "isNonBlocking": true,
               "source_file_start": "multiplier.sv",
               "source_line_start": 35,
               "source_column_start": 7,
               "source_file_end": "multiplier.sv",
               "source_line_end": 35,
               "source_column_end": 30
              },
              "source_file_start": "multiplier.sv",
              "source_line_start": 35,
              "source_column_start": 7,
              "source_file_end": "multiplier.sv",
              "source_line_end": 35,
              "source_column_end": 31
             },
             {
              "kind": "ExpressionStatement",
              "expr": {
               "kind": "Assignment",
               "type": "logic[15:0]",
               "left": {
                "kind": "NamedValue",
                "type": "logic[15:0]",
                "symbol": "114 nd",
                "source_file_start": "multiplier.sv",
                "source_line_start": 36,
                "source_column_start": 13,
                "source_file_end": "multiplier.sv",
                "source_line_end": 36,
                "source_column_end": 15
               },
               "right": {
                "kind": "BinaryOp",
                "type": "logic[15:0]",
                "op": "Multiply",
                "left": {
                 "kind": "NamedValue",
                 "type": "logic[15:0]",
                 "symbol": "113 nc",
                 "source_file_start": "multiplier.sv",
                 "source_line_start": 36,
                 "source_column_start": 19,
                 "source_file_end": "multiplier.sv",
                 "source_line_end": 36,
                 "source_column_end": 21
                },
                "right": {
                 "kind": "NamedValue",
                 "type": "logic[15:0]",
                 "symbol": "107 x",
                 "source_file_start": "multiplier.sv",
                 "source_line_start": 36,
                 "source_column_start": 24,
                 "source_file_end": "multiplier.sv",
                 "source_line_end": 36,
                 "source_column_end": 25
                },
                "source_file_start": "multiplier.sv",
                "source_line_start": 36,
                "source_column_start": 19,
                "source_file_end": "multiplier.sv",
                "source_line_end": 36,
                "source_column_end": 29
               },
               "isNonBlocking": true,
               "source_file_start": "multiplier.sv",
               "source_line_start": 36,
               "source_column_start": 7,
               "source_file_end": "multiplier.sv",
               "source_line_end": 36,
               "source_column_end": 30
              },
              "source_file_start": "multiplier.sv",
              "source_line_start": 36,
              "source_column_start": 7,
              "source_file_end": "multiplier.sv",
              "source_line_end": 36,
              "source_column_end": 31
             },
             {
              "kind": "ExpressionStatement",
              "expr": {
               "kind": "Assignment",
               "type": "logic[15:0]",
               "left": {
                "kind": "NamedValue",
                "type": "logic[15:0]",
                "symbol": "110 mb",
                "source_file_start": "multiplier.sv",
                "source_line_start": 37,
                "source_column_start": 13,
                "source_file_end": "multiplier.sv",
                "source_line_end": 37,
                "source_column_end": 15
               },
               "right": {
                "kind": "BinaryOp",
                "type": "logic[15:0]",
                "op": "Multiply",
                "left": {
                 "kind": "NamedValue",
                 "type": "logic[15:0]",
                 "symbol": "108 y",
                 "source_file_start": "multiplier.sv",
                 "source_line_start": 37,
                 "source_column_start": 19,
                 "source_file_end": "multiplier.sv",
                 "source_line_end": 37,
                 "source_column_end": 20
                },
                "right": {
                 "kind": "NamedValue",
                 "type": "logic[15:0]",
                 "symbol": "107 x",
                 "source_file_start": "multiplier.sv",
                 "source_line_start": 37,
                 "source_column_start": 23,
                 "source_file_end": "multiplier.sv",
                 "source_line_end": 37,
                 "source_column_end": 24
                },
                "source_file_start": "multiplier.sv",
                "source_line_start": 37,
                "source_column_start": 19,
                "source_file_end": "multiplier.sv",
                "source_line_end": 37,
                "source_column_end": 29
               },
               "isNonBlocking": true,
               "source_file_start": "multiplier.sv",
               "source_line_start": 37,
               "source_column_start": 7,
               "source_file_end": "multiplier.sv",
               "source_line_end": 37,
               "source_column_end": 30
              },
              "source_file_start": "multiplier.sv",
              "source_line_start": 37,
              "source_column_start": 7,
              "source_file_end": "multiplier.sv",
              "source_line_end": 37,
              "source_column_end": 31
             },
             {
              "kind": "ImmediateAssertion",
              "assertionKind": "Assert",
              "isDeferred": false,
              "isFinal": false,
              "cond": {
               "kind": "BinaryOp",
               "type": "bit",
               "op": "Equality",
               "left": {
                "kind": "NamedValue",
                "type": "logic[15:0]",
                "symbol": "109 ma",
                "source_file_start": "multiplier.sv",
                "source_line_start": 38,
                "source_column_start": 20,
                "source_file_end": "multiplier.sv",
                "source_line_end": 38,
                "source_column_end": 22
               },
               "right": {
                "kind": "NamedValue",
                "type": "logic[15:0]",
                "symbol": "110 mb",
                "source_file_start": "multiplier.sv",
                "source_line_start": 38,
                "source_column_start": 26,
                "source_file_end": "multiplier.sv",
                "source_line_end": 38,
                "source_column_end": 28
               },
               "source_file_start": "multiplier.sv",
               "source_line_start": 38,
               "source_column_start": 20,
               "source_file_end": "multiplier.sv",
               "source_line_end": 38,
               "source_column_end": 30
              },
              "source_file_start": "multiplier.sv",
              "source_line_start": 38,
              "source_column_start": 13,
              "source_file_end": "multiplier.sv",
              "source_line_end": 38,
              "source_column_end": 29
             }
            ]
           },
           "source_file_start": "multiplier.sv",
           "source_line_start": 29,
           "source_column_start": 5,
           "source_file_end": "multiplier.sv",
           "source_line_end": 29,
           "source_column_end": 60
          },
          "source_file_start": "multiplier.sv",
          "source_line_start": 19,
          "source_column_start": 5,
          "source_file_end": "multiplier.sv",
          "source_line_end": 19,
          "source_column_end": 60
         },
         "source_file_start": "multiplier.sv",
         "source_line_start": 18,
         "source_column_start": 23,
         "source_file_end": "multiplier.sv",
         "source_line_end": 18,
         "source_column_end": 41
        },
        "source_file_start": "multiplier.sv",
        "source_line_start": 18,
        "source_column_start": 5,
        "source_file_end": "multiplier.sv",
        "source_line_end": 18,
        "source_column_end": 41
       },
       "source_file": "multiplier.sv",
       "source_line": 18,
       "source_column": 5
      }
     ],
     "definition": "1 multiplier"
    }
   }
  ]
 }
}"#;

/// Lowers the recorded AST JSON of the design at `path` with the library, as
/// `parse_file` does with what slang prints; slang itself is not run here.
fn lower_recorded_output(path: &str) -> rslang::Result<Design> {
    assert_eq!(path, "./tests/fvbench/multiplier/multiplier.sv");
    // The recording holds what the default command line makes slang print.
    assert_eq!(
        rslang::Slang::default().command_args(&[path]),
        vec!["--quiet", "--ast-json", "-", "--ast-json-source-info", path]
    );
    rslang::lower_slang_ast_str(MULTIPLIER_AST)
}

#[test]
fn lowers_mul_design_into_rust_ir() {
    let design = lower_recorded_output("./tests/fvbench/multiplier/multiplier.sv")
        .expect("parse mul.sv with slang");
    let module = design.module("multiplier").expect("multiplier module");

    assert_eq!(module.parameters.len(), 2);
    assert_eq!(module.parameters[0].name, "WL");
    assert_eq!(module.parameters[0].value.as_deref(), Some("16"));
    assert_eq!(module.parameters[1].name, "WS");
    assert_eq!(module.parameters[1].value.as_deref(), Some("8"));

    assert_eq!(module.ports.len(), 6);
    assert_eq!(module.port("clk").unwrap().direction, PortDirection::In);
    assert_eq!(module.port("ix").unwrap().ty, "logic[7:0]");
    assert_eq!(module.nets.len(), 6);

    let variable_names: Vec<_> = module
        .variables
        .iter()
        .map(|signal| signal.name.as_str())
        .collect();
    assert_eq!(
        variable_names,
        ["x", "y", "ma", "mb", "na", "nb", "nc", "nd"]
    );
    assert!(
        module
            .variables
            .iter()
            .all(|signal| signal.kind == SignalKind::Variable)
    );

    assert_eq!(module.procedures.len(), 1);
    let procedure = &module.procedures[0];
    assert_eq!(procedure.kind, ProcedureKind::Always);

    let Stmt::Timed { event, stmt, .. } = &procedure.body else {
        panic!("always body should be timed");
    };
    let EventControl::Signal { edge, expr, .. } = event else {
        panic!("always event should be signal event");
    };
    assert_eq!(*edge, Edge::Pos);
    assert!(matches!(
        expr,
        Expr::NamedValue { symbol, .. } if symbol.name == "clk"
    ));

    let Stmt::Block { statements, .. } = stmt.as_ref() else {
        panic!("timed body should lower to a block");
    };
    assert_eq!(statements.len(), 1);
    assert!(matches!(statements[0], Stmt::If { .. }));

    let mut assignments = 0;
    let mut saw_multiply = false;
    let mut saw_assertion = false;
    procedure.body.for_each(&mut |stmt| match stmt {
        Stmt::Assign { right, .. } => {
            assignments += 1;
            if contains_binary_op(right, BinaryOp::Multiply) {
                saw_multiply = true;
            }
        }
        Stmt::Assert {
            kind, condition, ..
        } => {
            saw_assertion =
                *kind == AssertionKind::Assert && contains_binary_op(condition, BinaryOp::Equality);
        }
        _ => {}
    });

    assert_eq!(assignments, 16);
    assert!(saw_multiply, "expected multiplication assignments");
    assert!(saw_assertion, "expected assert(ma == mb)");
}

fn contains_binary_op(expr: &Expr, needle: BinaryOp) -> bool {
    match expr {
        Expr::Binary {
            op, left, right, ..
        } => {
            *op == needle
                || contains_binary_op(left, needle.clone())
                || contains_binary_op(right, needle)
        }
        Expr::Unary { expr, .. } | Expr::Conversion { expr, .. } => {
            contains_binary_op(expr, needle)
        }
        Expr::Assignment { left, right, .. } => {
            contains_binary_op(left, needle.clone()) || contains_binary_op(right, needle)
        }
        Expr::NamedValue { .. } | Expr::IntegerLiteral { .. } | Expr::Unknown { .. } => false,
    }
}
